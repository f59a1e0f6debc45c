use tmlu_codec::decode::read_cavefile;
use tmlu_codec::encode::write_cavefile;
use tmlu_codec::model::{CaveError, CaveFile, CaveFileInfo, StationRecord, SurveyData};

fn v(s: &str) -> Vec<u8> {
    s.as_bytes().to_vec()
}

fn text(b: &[u8]) -> String {
    String::from_utf8(b.to_vec()).unwrap()
}

#[test]
fn empty_document_exact_bytes() {
    let out = write_cavefile(&Vec::new(), &CaveFileInfo::default());
    let expected = "<?xml version=\"1.0\" encoding=\"UTF-8\" standalone=\"yes\"?>\n<CaveFile>\n<caveName></caveName>\n<firstStartAbsoluteElevation>0.0</firstStartAbsoluteElevation>\n<geoCoding></geoCoding>\n<ListAnnotation/>\n<Data/>\n<unit>m</unit>\n<useMagneticAzimuth>true</useMagneticAzimuth>\n<Constraints/>\n<CartoLine/>\n<CartoPage/>\n<CartoRectangle/>\n<CartoSelection/>\n<CartoEllipse/>\n<CartoSpline/>\n<Layers>\n<layerList>\n<constant>true</constant>\n<locked>false</locked>\n<name>Overlay</name>\n<style>\n<dashScale>1.0</dashScale>\n<fillColorString>0x00000000</fillColorString>\n<lineType>STANDARD</lineType>\n<lineTypeScale>1.0</lineTypeScale>\n<opacity>100.0</opacity>\n<sizeMode>SWITCHABLE</sizeMode>\n<strokeColorString>0x000000ff</strokeColorString>\n<strokeThickness>1.0</strokeThickness>\n</style>\n<visible>true</visible>\n</layerList>\n<layerList>\n<constant>true</constant>\n<locked>false</locked>\n<name>Default</name>\n<style>\n<dashScale>1.0</dashScale>\n<fillColorString>0x00000000</fillColorString>\n<lineType>STANDARD</lineType>\n<lineTypeScale>1.0</lineTypeScale>\n<opacity>100.0</opacity>\n<sizeMode>SWITCHABLE</sizeMode>\n<strokeColorString>0x000000ff</strokeColorString>\n<strokeThickness>1.0</strokeThickness>\n</style>\n<visible>true</visible>\n</layerList>\n</Layers>\n<CartoOverlay/>\n<CartoLinkedSurface/>\n</CaveFile>";
    assert_eq!(text(&out), expected);
}

fn sample_record() -> SurveyData {
    let mut sd = SurveyData::default();
    sd.id = 2;
    sd.from_id = 1;
    sd.azimuth = v("45.0");
    sd.length = v("3.2");
    sd.depth = v("1.0");
    sd.date = v("2021-06-01");
    sd.station_type = v("REAL");
    sd.comment = Some(v("steep passage"));
    sd
}

#[test]
fn round_trip_bytes_and_fields() {
    let mut start = SurveyData::default();
    start.id = 1;
    start.latitude = v("47.1");
    start.longitude = v("9.5");
    start.station_type = v("START");
    let mut closure = SurveyData::default();
    closure.id = 3;
    closure.from_id = 2;
    closure.closure_to_id = 1;
    closure.station_type = v("CLOSURE");
    let records = vec![start, sample_record(), closure];
    let info = CaveFileInfo::default();
    let bytes1 = write_cavefile(&records, &info);
    let decoded: CaveFile = read_cavefile(&bytes1).unwrap();
    assert_eq!(decoded.data.len(), 3);
    assert_eq!(decoded.data[0].id, 1);
    assert_eq!(decoded.data[0].latitude, v("47.1"));
    assert_eq!(decoded.data[1].azimuth, v("45.0"));
    assert_eq!(decoded.data[1].comment, Some(v("steep passage")));
    assert_eq!(decoded.data[2].closure_to_id, 1);
    let bytes2 = write_cavefile(&decoded.data, &decoded.info);
    assert_eq!(bytes1, bytes2);
}

#[test]
fn minimal_records_get_defaults() {
    for kind in ["START", "REAL", "VIRTUAL", "CLOSURE"] {
        let input = format!("<SRVD><TY>{}</TY><ID>5</ID></SRVD>", kind);
        let cave = read_cavefile(input.as_bytes()).unwrap();
        assert_eq!(cave.data.len(), 1);
        let sd = &cave.data[0];
        assert_eq!(sd.id, 5);
        assert_eq!(sd.station_type, v(kind));
        assert_eq!(sd.azimuth, v("0.0"));
        assert_eq!(sd.excluded, v("false"));
        assert_eq!(sd.date, v("2021-01-01"));
        assert_eq!(sd.comment, None);
        assert_eq!(sd.shape.radius_collection.len(), 4);
    }
}

#[test]
fn unknown_station_kind_is_malformed() {
    let r = read_cavefile(b"<SRVD><TY>BOGUS</TY><ID>5</ID></SRVD>");
    assert_eq!(r.unwrap_err(), CaveError::MalformedInput);
}

#[test]
fn radius_vectors_keep_canonical_order() {
    let input = "<SRVD><TY>START</TY><ID>1</ID><SH><HPRA>true</HPRA><RC><RV><ag>90.0</ag><lg>2.0</lg><tc>1.5</tc><tp>1.25</tp></RV><RV><ag>270.0</ag><lg>3.0</lg></RV><RV></RV><RV><ag>7.5</ag></RV></RC></SH></SRVD>";
    let cave = read_cavefile(input.as_bytes()).unwrap();
    let sh = &cave.data[0].shape;
    let angles: Vec<String> = sh.radius_collection.iter().map(|r| text(&r.angle)).collect();
    assert_eq!(angles, vec!["0.0", "180.0", "90.0", "270.0"]);
    assert_eq!(sh.radius_collection[0].length, v("2.0"));
    assert_eq!(sh.radius_collection[0].tension_corridor, v("1.5"));
    assert_eq!(sh.radius_collection[0].tension_profile, v("1.25"));
    assert_eq!(sh.radius_collection[1].length, v("3.0"));
    assert_eq!(sh.radius_collection[2].length, v("0.0"));
    assert_eq!(sh.has_profile_azimut, v("true"));
}

#[test]
fn comment_escaping() {
    let mut sd = sample_record();
    sd.comment = Some(v("a>b"));
    let out = text(&write_cavefile(&vec![sd], &CaveFileInfo::default()));
    assert!(out.contains("<CM>a&gt;b</CM>"));

    let mut sd2 = sample_record();
    sd2.comment = Some(v("a<b"));
    let out2 = text(&write_cavefile(&vec![sd2], &CaveFileInfo::default()));
    assert!(out2.contains("<CM>a&lt;b</CM>"));

    let mut sd3 = sample_record();
    sd3.comment = Some(v("a&b"));
    let out3 = text(&write_cavefile(&vec![sd3], &CaveFileInfo::default()));
    assert!(out3.contains("<CM>a&amp;b</CM>"));
}

#[test]
fn escaped_comment_round_trips() {
    let mut sd = sample_record();
    sd.comment = Some(v("a>b & a<b"));
    let bytes = write_cavefile(&vec![sd], &CaveFileInfo::default());
    let cave = read_cavefile(&bytes).unwrap();
    assert_eq!(cave.data[0].comment, Some(v("a>b & a<b")));
}

#[test]
fn unknown_fields_are_dropped() {
    let input = "<SRVD><TY>START</TY><ID>7</ID><ZZ>foo</ZZ></SRVD>";
    let cave = read_cavefile(input.as_bytes()).unwrap();
    assert_eq!(cave.data.len(), 1);
    let sd = &cave.data[0];
    assert_eq!(sd.id, 7);
    assert_eq!(sd.comment, None);
    assert_eq!(sd.name, None);
    assert_eq!(sd.section, None);
    assert_eq!(sd.explorer, None);
}

#[test]
fn malformed_numeric_id_fails() {
    let r = read_cavefile(b"<SRVD><TY>START</TY><ID>notanumber</ID></SRVD>");
    assert_eq!(r.unwrap_err(), CaveError::MalformedInput);
}

#[test]
fn unbalanced_markup_fails() {
    assert_eq!(
        read_cavefile(b"<CaveFile><Data></CaveFile>").unwrap_err(),
        CaveError::MalformedInput
    );
    assert_eq!(read_cavefile(b"<CaveFile>").unwrap_err(), CaveError::MalformedInput);
    assert_eq!(read_cavefile(b"<CaveFile").unwrap_err(), CaveError::MalformedInput);
}

#[test]
fn bad_entity_fails() {
    assert_eq!(
        read_cavefile(b"<CM>a &wat; b</CM>").unwrap_err(),
        CaveError::MalformedInput
    );
}

#[test]
fn header_fields_decode() {
    let input = "<?xml version=\"1.0\" encoding=\"UTF-8\" standalone=\"yes\"?>\n<CaveFile><caveName>Grotte</caveName><firstStartAbsoluteElevation>412.5</firstStartAbsoluteElevation><geoCoding>WGS84</geoCoding><ListAnnotation/><Data/><unit>ft</unit><useMagneticAzimuth>false</useMagneticAzimuth></CaveFile>";
    let cave = read_cavefile(input.as_bytes()).unwrap();
    assert_eq!(cave.info.cave_name, v("Grotte"));
    assert_eq!(cave.info.first_start_absolute_elevation, v("412.5"));
    assert_eq!(cave.info.geo_coding, v("WGS84"));
    assert_eq!(cave.info.unit, v("ft"));
    assert_eq!(cave.info.use_magnetic_azimuth, v("false"));
    assert_eq!(cave.data.len(), 0);
}

#[test]
fn classification_round_trip() {
    let sd = sample_record();
    let rec = sd.classify().unwrap();
    match &rec {
        StationRecord::Relative { id, from_id, azimuth, length, depth, date, is_virtual, .. } => {
            assert_eq!(*id, 2);
            assert_eq!(*from_id, 1);
            assert_eq!(*azimuth, v("45.0"));
            assert_eq!(*length, v("3.2"));
            assert_eq!(*depth, v("1.0"));
            assert_eq!(*date, v("2021-06-01"));
            assert!(!is_virtual);
        },
        _ => panic!("wrong kind"),
    }
    let wire = rec.to_wire();
    assert_eq!(wire.id, 2);
    assert_eq!(wire.azimuth, v("45.0"));
    assert_eq!(wire.station_type, v("REAL"));
    assert_eq!(wire.comment, Some(v("steep passage")));
    let bad = SurveyData::default();
    assert_eq!(bad.classify().unwrap_err(), CaveError::MalformedInput);
}

#[test]
fn relative_station_numeric_projection() {
    let info = CaveFileInfo::default();
    let records = vec![sample_record()];
    let bytes = write_cavefile(&records, &info);
    let cave = read_cavefile(&bytes).unwrap();
    assert_eq!(cave.info.unit, v("m"));
    match cave.data[0].classify().unwrap() {
        StationRecord::Relative { id, from_id, azimuth, length, depth, date, .. } => {
            assert_eq!(id, 2);
            assert_eq!(from_id, 1);
            assert_eq!(text(&azimuth).parse::<f64>().unwrap(), 45.0);
            assert_eq!(text(&length).parse::<f64>().unwrap(), 3.2);
            assert_eq!(text(&depth).parse::<f64>().unwrap(), 1.0);
            assert_eq!(text(&date), "2021-06-01");
        },
        _ => panic!("wrong kind"),
    }
}

#[test]
fn parse_comments() {
    let field = "<Explorer> Mr, Miyagi</Explorer><Surveyor>B\u{e6} & Bu <oo> </Surveyor>";
    let mut sd = sample_record();
    sd.explorer = Some(field.as_bytes().to_vec());
    let bytes = write_cavefile(&vec![sd], &CaveFileInfo::default());
    let cave = read_cavefile(&bytes).unwrap();
    assert_eq!(cave.data.len(), 1);
    assert_eq!(cave.data[0].explorer, Some(field.as_bytes().to_vec()));
}

#[test]
fn negative_and_signed_identifiers() {
    let input = "<SRVD><TY>CLOSURE</TY><ID>-7</ID><FRID>+3</FRID><CID>2147483647</CID></SRVD>";
    let cave = read_cavefile(input.as_bytes()).unwrap();
    assert_eq!(cave.data[0].id, -7);
    assert_eq!(cave.data[0].from_id, 3);
    assert_eq!(cave.data[0].closure_to_id, 2147483647);
    let over = read_cavefile(b"<SRVD><TY>START</TY><ID>2147483648</ID></SRVD>");
    assert_eq!(over.unwrap_err(), CaveError::MalformedInput);
    let cave2 = read_cavefile(b"<SRVD><TY>START</TY><ID>-2147483648</ID></SRVD>").unwrap();
    assert_eq!(cave2.data[0].id, -2147483648);
}

#[test]
fn whitespace_around_text_is_trimmed() {
    let input = "<SRVD><TY>\n  START \t</TY><ID> 4 </ID><CM>  hi there  </CM></SRVD>";
    let cave = read_cavefile(input.as_bytes()).unwrap();
    assert_eq!(cave.data[0].station_type, v("START"));
    assert_eq!(cave.data[0].id, 4);
    assert_eq!(cave.data[0].comment, Some(v("hi there")));
}
