//! The document model: header, station records, shape substructure, and
//! the layer/style constants of the trailer, together with their
//! mathematical views and well-formedness predicates.
use vstd::prelude::*;
use crate::names::{
    b_txt_a180, b_txt_a270, b_txt_a90, b_txt_closure, b_txt_date, b_txt_false, b_txt_fill,
    b_txt_hundred, b_txt_m, b_txt_one, b_txt_real, b_txt_standard, b_txt_start, b_txt_stroke,
    b_txt_switchable, b_txt_true, b_txt_virtual, b_txt_zero, b_txt_zero_int, s_txt_a180,
    s_txt_a270, s_txt_a90, s_txt_closure, s_txt_date, s_txt_false, s_txt_fill, s_txt_hundred,
    s_txt_m, s_txt_one, s_txt_real, s_txt_standard, s_txt_start, s_txt_stroke, s_txt_switchable,
    s_txt_true, s_txt_virtual, s_txt_zero, s_txt_zero_int,
};
use crate::text::{bytes_eq, copy_range, is_ws};

verus! {

/// The two failure kinds of a conversion: input that cannot be decoded,
/// and a source or destination that cannot be read or written.
#[derive(Debug, Clone, Copy, PartialEq, Eq, Structural)]
pub enum CaveError {
    MalformedInput,
    IoFailure,
}

/// Copies the bytes of a text value.
pub fn dup(v: &Vec<u8>) -> (r: Vec<u8>)
    ensures
        r@ == v@,
{
    let r = copy_range(v.as_slice(), 0, v.len());
    assert(v@.subrange(0, v@.len() as int) =~= v@);
    r
}

/// Copies an optional text value.
pub fn dup_opt(v: &Option<Vec<u8>>) -> (r: Option<Vec<u8>>)
    ensures
        opt_view(&r) == opt_view(v),
{
    match v {
        Some(x) => Some(dup(x)),
        None => None,
    }
}

/// The view of an optional text field.
pub open spec fn opt_view(v: &Option<Vec<u8>>) -> Option<Seq<u8>> {
    match v {
        Some(x) => Some(x@),
        None => None,
    }
}

/// The text an optional field contributes to the stream: its content, or
/// nothing when the field is absent.
pub open spec fn opt_text(v: Option<Seq<u8>>) -> Seq<u8> {
    match v {
        Some(x) => x,
        None => Seq::empty(),
    }
}

/// An absent optional field encodes as empty text.
pub fn opt_str(input: Option<Vec<u8>>) -> (r: Vec<u8>)
    ensures
        r@ == opt_text(opt_view(&input)),
{
    match input {
        Some(s) => s,
        None => Vec::new(),
    }
}

/// One radius vector of the passage cross-section.
#[derive(Debug)]
pub struct RadiusVector {
    pub angle: Vec<u8>,
    pub length: Vec<u8>,
    pub tension_corridor: Vec<u8>,
    pub tension_profile: Vec<u8>,
}

pub ghost struct RadiusVectorS {
    pub angle: Seq<u8>,
    pub length: Seq<u8>,
    pub tension_corridor: Seq<u8>,
    pub tension_profile: Seq<u8>,
}

impl View for RadiusVector {
    type V = RadiusVectorS;

    open spec fn view(&self) -> RadiusVectorS {
        RadiusVectorS {
            angle: self.angle@,
            length: self.length@,
            tension_corridor: self.tension_corridor@,
            tension_profile: self.tension_profile@,
        }
    }
}

/// The default radius vector at a given angle: zero length, unit tensions.
pub open spec fn radius_default_s(angle: Seq<u8>) -> RadiusVectorS {
    RadiusVectorS {
        angle,
        length: s_txt_zero(),
        tension_corridor: s_txt_one(),
        tension_profile: s_txt_one(),
    }
}

impl RadiusVector {
    pub fn default(angle: Vec<u8>) -> (r: RadiusVector)
        ensures
            r@ == radius_default_s(angle@),
    {
        RadiusVector {
            angle,
            length: b_txt_zero(),
            tension_corridor: b_txt_one(),
            tension_profile: b_txt_one(),
        }
    }
}


/// The views of a radius-vector sequence.
pub open spec fn rc_views(v: Seq<RadiusVector>) -> Seq<RadiusVectorS> {
    v.map_values(|r: RadiusVector| r@)
}

/// The views of a record sequence.
pub open spec fn data_views(v: Seq<SurveyData>) -> Seq<SurveyDataS> {
    v.map_values(|sd: SurveyData| sd@)
}

/// The per-station cross-section descriptor.
#[derive(Debug)]
pub struct Shape {
    pub has_profile_azimut: Vec<u8>,
    pub has_profile_tilt: Vec<u8>,
    pub profile_azimut: Vec<u8>,
    pub profile_tilt: Vec<u8>,
    pub radius_collection: Vec<RadiusVector>,
}

pub ghost struct ShapeS {
    pub has_profile_azimut: Seq<u8>,
    pub has_profile_tilt: Seq<u8>,
    pub profile_azimut: Seq<u8>,
    pub profile_tilt: Seq<u8>,
    pub radius_collection: Seq<RadiusVectorS>,
}

impl View for Shape {
    type V = ShapeS;

    open spec fn view(&self) -> ShapeS {
        ShapeS {
            has_profile_azimut: self.has_profile_azimut@,
            has_profile_tilt: self.has_profile_tilt@,
            profile_azimut: self.profile_azimut@,
            profile_tilt: self.profile_tilt@,
            radius_collection: rc_views(self.radius_collection@),
        }
    }
}

/// The fixed canonical angle text of radius vector `i`.
pub open spec fn canonical_angle(i: int) -> Seq<u8> {
    if i == 0 {
        s_txt_zero()
    } else if i == 1 {
        s_txt_a180()
    } else if i == 2 {
        s_txt_a90()
    } else {
        s_txt_a270()
    }
}

pub open spec fn default_shape_s() -> ShapeS {
    ShapeS {
        has_profile_azimut: s_txt_false(),
        has_profile_tilt: s_txt_false(),
        profile_azimut: s_txt_zero(),
        profile_tilt: s_txt_zero(),
        radius_collection: seq![
            radius_default_s(s_txt_zero()),
            radius_default_s(s_txt_a180()),
            radius_default_s(s_txt_a90()),
            radius_default_s(s_txt_a270()),
        ],
    }
}

impl Default for Shape {
    fn default() -> (r: Shape)
        ensures
            r@ == default_shape_s(),
    {
        let mut rc: Vec<RadiusVector> = Vec::new();
        rc.push(RadiusVector::default(b_txt_zero()));
        rc.push(RadiusVector::default(b_txt_a180()));
        rc.push(RadiusVector::default(b_txt_a90()));
        rc.push(RadiusVector::default(b_txt_a270()));
        let r = Shape {
            has_profile_azimut: b_txt_false(),
            has_profile_tilt: b_txt_false(),
            profile_azimut: b_txt_zero(),
            profile_tilt: b_txt_zero(),
            radius_collection: rc,
        };
        assert(r@.radius_collection =~= default_shape_s().radius_collection);
        r
    }
}

/// One survey station or link, in the flat wire form: every field of the
/// format is present whatever the station kind.
#[derive(Debug)]
pub struct SurveyData {
    pub id: i32,
    pub azimuth: Vec<u8>,
    pub closure_to_id: i32,
    pub color: Vec<u8>,
    pub comment: Option<Vec<u8>>,
    pub date: Vec<u8>,
    pub depth: Vec<u8>,
    pub depth_in: Vec<u8>,
    pub down: Vec<u8>,
    pub excluded: Vec<u8>,
    pub explorer: Option<Vec<u8>>,
    pub from_id: i32,
    pub inclination: Vec<u8>,
    pub latitude: Vec<u8>,
    pub left: Vec<u8>,
    pub length: Vec<u8>,
    pub locked: Vec<u8>,
    pub longitude: Vec<u8>,
    pub name: Option<Vec<u8>>,
    pub profile_type: Vec<u8>,
    pub right: Vec<u8>,
    pub section: Option<Vec<u8>>,
    pub shape: Shape,
    pub station_type: Vec<u8>,
    pub up: Vec<u8>,
}

pub ghost struct SurveyDataS {
    pub id: int,
    pub azimuth: Seq<u8>,
    pub closure_to_id: int,
    pub color: Seq<u8>,
    pub comment: Option<Seq<u8>>,
    pub date: Seq<u8>,
    pub depth: Seq<u8>,
    pub depth_in: Seq<u8>,
    pub down: Seq<u8>,
    pub excluded: Seq<u8>,
    pub explorer: Option<Seq<u8>>,
    pub from_id: int,
    pub inclination: Seq<u8>,
    pub latitude: Seq<u8>,
    pub left: Seq<u8>,
    pub length: Seq<u8>,
    pub locked: Seq<u8>,
    pub longitude: Seq<u8>,
    pub name: Option<Seq<u8>>,
    pub profile_type: Seq<u8>,
    pub right: Seq<u8>,
    pub section: Option<Seq<u8>>,
    pub shape: ShapeS,
    pub station_type: Seq<u8>,
    pub up: Seq<u8>,
}

impl View for SurveyData {
    type V = SurveyDataS;

    open spec fn view(&self) -> SurveyDataS {
        SurveyDataS {
            id: self.id as int,
            azimuth: self.azimuth@,
            closure_to_id: self.closure_to_id as int,
            color: self.color@,
            comment: opt_view(&self.comment),
            date: self.date@,
            depth: self.depth@,
            depth_in: self.depth_in@,
            down: self.down@,
            excluded: self.excluded@,
            explorer: opt_view(&self.explorer),
            from_id: self.from_id as int,
            inclination: self.inclination@,
            latitude: self.latitude@,
            left: self.left@,
            length: self.length@,
            locked: self.locked@,
            longitude: self.longitude@,
            name: opt_view(&self.name),
            profile_type: self.profile_type@,
            right: self.right@,
            section: opt_view(&self.section),
            shape: self.shape@,
            station_type: self.station_type@,
            up: self.up@,
        }
    }
}

pub open spec fn default_survey_s() -> SurveyDataS {
    SurveyDataS {
        id: 0,
        azimuth: s_txt_zero(),
        closure_to_id: 0,
        color: s_txt_zero_int(),
        comment: None,
        date: s_txt_date(),
        depth: s_txt_zero(),
        depth_in: s_txt_zero(),
        down: s_txt_zero(),
        excluded: s_txt_false(),
        explorer: None,
        from_id: 0,
        inclination: s_txt_zero(),
        latitude: s_txt_zero(),
        left: s_txt_zero(),
        length: s_txt_zero(),
        locked: s_txt_false(),
        longitude: s_txt_zero(),
        name: None,
        profile_type: s_txt_zero_int(),
        right: s_txt_zero(),
        section: None,
        shape: default_shape_s(),
        station_type: s_txt_zero_int(),
        up: s_txt_zero(),
    }
}

impl Default for SurveyData {
    fn default() -> (r: SurveyData)
        ensures
            r@ == default_survey_s(),
    {
        SurveyData {
            id: 0,
            azimuth: b_txt_zero(),
            closure_to_id: 0,
            color: b_txt_zero_int(),
            comment: None,
            date: b_txt_date(),
            depth: b_txt_zero(),
            depth_in: b_txt_zero(),
            down: b_txt_zero(),
            excluded: b_txt_false(),
            explorer: None,
            from_id: 0,
            inclination: b_txt_zero(),
            latitude: b_txt_zero(),
            left: b_txt_zero(),
            length: b_txt_zero(),
            locked: b_txt_false(),
            longitude: b_txt_zero(),
            name: None,
            profile_type: b_txt_zero_int(),
            right: b_txt_zero(),
            section: None,
            shape: Shape::default(),
            station_type: b_txt_zero_int(),
            up: b_txt_zero(),
        }
    }
}

/// The document header.
#[derive(Debug)]
pub struct CaveFileInfo {
    pub cave_name: Vec<u8>,
    pub first_start_absolute_elevation: Vec<u8>,
    pub geo_coding: Vec<u8>,
    pub unit: Vec<u8>,
    pub use_magnetic_azimuth: Vec<u8>,
}

pub ghost struct CaveFileInfoS {
    pub cave_name: Seq<u8>,
    pub first_start_absolute_elevation: Seq<u8>,
    pub geo_coding: Seq<u8>,
    pub unit: Seq<u8>,
    pub use_magnetic_azimuth: Seq<u8>,
}

impl View for CaveFileInfo {
    type V = CaveFileInfoS;

    open spec fn view(&self) -> CaveFileInfoS {
        CaveFileInfoS {
            cave_name: self.cave_name@,
            first_start_absolute_elevation: self.first_start_absolute_elevation@,
            geo_coding: self.geo_coding@,
            unit: self.unit@,
            use_magnetic_azimuth: self.use_magnetic_azimuth@,
        }
    }
}

pub open spec fn default_info_s() -> CaveFileInfoS {
    CaveFileInfoS {
        cave_name: Seq::empty(),
        first_start_absolute_elevation: s_txt_zero(),
        geo_coding: Seq::empty(),
        unit: s_txt_m(),
        use_magnetic_azimuth: s_txt_true(),
    }
}

impl Default for CaveFileInfo {
    fn default() -> (r: CaveFileInfo)
        ensures
            r@ == default_info_s(),
    {
        let r = CaveFileInfo {
            cave_name: Vec::new(),
            first_start_absolute_elevation: b_txt_zero(),
            geo_coding: Vec::new(),
            unit: b_txt_m(),
            use_magnetic_azimuth: b_txt_true(),
        };
        assert(r@.cave_name =~= default_info_s().cave_name);
        assert(r@.geo_coding =~= default_info_s().geo_coding);
        r
    }
}

/// A whole document: one header and the ordered station records.
#[derive(Debug)]
pub struct CaveFile {
    pub info: CaveFileInfo,
    pub data: Vec<SurveyData>,
}

pub ghost struct CaveFileS {
    pub info: CaveFileInfoS,
    pub data: Seq<SurveyDataS>,
}

impl View for CaveFile {
    type V = CaveFileS;

    open spec fn view(&self) -> CaveFileS {
        CaveFileS { info: self.info@, data: data_views(self.data@) }
    }
}

/// The drawing style of a layer; every field is a fixed constant of the
/// format.
#[derive(Debug)]
pub struct Style {
    pub dash_scale: Vec<u8>,
    pub fill_color_string: Vec<u8>,
    pub line_type: Vec<u8>,
    pub line_type_scale: Vec<u8>,
    pub opacity: Vec<u8>,
    pub size_mode: Vec<u8>,
    pub stroke_color_string: Vec<u8>,
    pub stroke_thickness: Vec<u8>,
}

pub ghost struct StyleS {
    pub dash_scale: Seq<u8>,
    pub fill_color_string: Seq<u8>,
    pub line_type: Seq<u8>,
    pub line_type_scale: Seq<u8>,
    pub opacity: Seq<u8>,
    pub size_mode: Seq<u8>,
    pub stroke_color_string: Seq<u8>,
    pub stroke_thickness: Seq<u8>,
}

impl View for Style {
    type V = StyleS;

    open spec fn view(&self) -> StyleS {
        StyleS {
            dash_scale: self.dash_scale@,
            fill_color_string: self.fill_color_string@,
            line_type: self.line_type@,
            line_type_scale: self.line_type_scale@,
            opacity: self.opacity@,
            size_mode: self.size_mode@,
            stroke_color_string: self.stroke_color_string@,
            stroke_thickness: self.stroke_thickness@,
        }
    }
}

pub open spec fn default_style_s() -> StyleS {
    StyleS {
        dash_scale: s_txt_one(),
        fill_color_string: s_txt_fill(),
        line_type: s_txt_standard(),
        line_type_scale: s_txt_one(),
        opacity: s_txt_hundred(),
        size_mode: s_txt_switchable(),
        stroke_color_string: s_txt_stroke(),
        stroke_thickness: s_txt_one(),
    }
}

impl Default for Style {
    fn default() -> (r: Style)
        ensures
            r@ == default_style_s(),
    {
        Style {
            dash_scale: b_txt_one(),
            fill_color_string: b_txt_fill(),
            line_type: b_txt_standard(),
            line_type_scale: b_txt_one(),
            opacity: b_txt_hundred(),
            size_mode: b_txt_switchable(),
            stroke_color_string: b_txt_stroke(),
            stroke_thickness: b_txt_one(),
        }
    }
}

/// One entry of the fixed layer table in the document trailer.
#[derive(Debug)]
pub struct LayerList {
    pub constant: Vec<u8>,
    pub locked: Vec<u8>,
    pub name: Vec<u8>,
    pub style: Style,
    pub visible: Vec<u8>,
}

pub ghost struct LayerListS {
    pub constant: Seq<u8>,
    pub locked: Seq<u8>,
    pub name: Seq<u8>,
    pub style: StyleS,
    pub visible: Seq<u8>,
}

impl View for LayerList {
    type V = LayerListS;

    open spec fn view(&self) -> LayerListS {
        LayerListS {
            constant: self.constant@,
            locked: self.locked@,
            name: self.name@,
            style: self.style@,
            visible: self.visible@,
        }
    }
}

pub open spec fn layer_s(name: Seq<u8>) -> LayerListS {
    LayerListS {
        constant: s_txt_true(),
        locked: s_txt_false(),
        name,
        style: default_style_s(),
        visible: s_txt_true(),
    }
}

impl LayerList {
    pub fn new(name: Vec<u8>) -> (r: LayerList)
        ensures
            r@ == layer_s(name@),
    {
        LayerList {
            constant: b_txt_true(),
            locked: b_txt_false(),
            name,
            style: Style::default(),
            visible: b_txt_true(),
        }
    }
}

// ----- Well-formedness -----

/// Text without whitespace at either edge survives the trimming that the
/// decoder applies to text nodes.
pub open spec fn no_edge_ws(s: Seq<u8>) -> bool {
    s.len() > 0 ==> (!is_ws(s.first()) && !is_ws(s.last()))
}

/// A field written without escaping must carry no markup or entity starts
/// of its own and no whitespace at its edges, and must be non-empty so the
/// decoder sees a text node.
pub open spec fn fast_text_ok(s: Seq<u8>) -> bool {
    &&& s.len() > 0
    &&& no_edge_ws(s)
    &&& forall|i: int| 0 <= i < s.len() ==> #[trigger] s[i] != 60 && s[i] != 38
}

/// A field written with escaping may hold any bytes, but none of the
/// whitespace trimmed at the edges, and must be non-empty.
pub open spec fn esc_text_ok(s: Seq<u8>) -> bool {
    s.len() > 0 && no_edge_ws(s)
}

pub open spec fn opt_text_ok(o: Option<Seq<u8>>) -> bool {
    match o {
        None => true,
        Some(v) => esc_text_ok(v),
    }
}

/// The station kinds the format defines.
pub open spec fn station_type_ok(s: Seq<u8>) -> bool {
    s == s_txt_start() || s == s_txt_real() || s == s_txt_virtual() || s == s_txt_closure()
}

/// The structural constant of every shape: exactly four radius vectors in
/// the fixed canonical angular order.
pub open spec fn shape_frame(sh: ShapeS) -> bool {
    &&& sh.radius_collection.len() == 4
    &&& forall|i: int| 0 <= i < 4 ==> #[trigger] sh.radius_collection[i].angle == canonical_angle(
        i,
    )
}

pub open spec fn wf_radius(rv: RadiusVectorS) -> bool {
    fast_text_ok(rv.length) && fast_text_ok(rv.tension_corridor) && fast_text_ok(
        rv.tension_profile,
    )
}

pub open spec fn wf_shape(sh: ShapeS) -> bool {
    &&& shape_frame(sh)
    &&& fast_text_ok(sh.has_profile_azimut)
    &&& fast_text_ok(sh.has_profile_tilt)
    &&& fast_text_ok(sh.profile_azimut)
    &&& fast_text_ok(sh.profile_tilt)
    &&& forall|i: int| 0 <= i < 4 ==> wf_radius(#[trigger] sh.radius_collection[i])
}

/// A station record the codec round-trips exactly: raw-written fields in
/// the markup-safe alphabet, escaped fields without edge whitespace,
/// identifiers in 32-bit range, a known station kind, and the canonical
/// shape frame.
pub open spec fn wf_survey(sd: SurveyDataS) -> bool {
    &&& -0x8000_0000 <= sd.id <= 0x7fff_ffff
    &&& -0x8000_0000 <= sd.closure_to_id <= 0x7fff_ffff
    &&& -0x8000_0000 <= sd.from_id <= 0x7fff_ffff
    &&& fast_text_ok(sd.azimuth)
    &&& fast_text_ok(sd.color)
    &&& opt_text_ok(sd.comment)
    &&& fast_text_ok(sd.date)
    &&& fast_text_ok(sd.depth)
    &&& fast_text_ok(sd.depth_in)
    &&& esc_text_ok(sd.down)
    &&& esc_text_ok(sd.excluded)
    &&& opt_text_ok(sd.explorer)
    &&& fast_text_ok(sd.inclination)
    &&& fast_text_ok(sd.latitude)
    &&& fast_text_ok(sd.left)
    &&& fast_text_ok(sd.length)
    &&& fast_text_ok(sd.locked)
    &&& fast_text_ok(sd.longitude)
    &&& opt_text_ok(sd.name)
    &&& fast_text_ok(sd.profile_type)
    &&& fast_text_ok(sd.right)
    &&& opt_text_ok(sd.section)
    &&& wf_shape(sd.shape)
    &&& station_type_ok(sd.station_type)
    &&& fast_text_ok(sd.up)
}

/// A header the codec round-trips exactly. The cave name and the
/// geo-coding descriptor may be empty, since their defaults are empty; the
/// other fields must be non-empty or decoding would fall back to defaults.
pub open spec fn wf_info(ci: CaveFileInfoS) -> bool {
    &&& (ci.cave_name.len() == 0 || esc_text_ok(ci.cave_name))
    &&& esc_text_ok(ci.first_start_absolute_elevation)
    &&& (ci.geo_coding.len() == 0 || esc_text_ok(ci.geo_coding))
    &&& esc_text_ok(ci.unit)
    &&& esc_text_ok(ci.use_magnetic_azimuth)
}

pub open spec fn wf_cave(c: CaveFileS) -> bool {
    wf_info(c.info) && forall|i: int| 0 <= i < c.data.len() ==> wf_survey(#[trigger] c.data[i])
}

// ----- The tagged logical form of a station record -----

/// The auxiliary fields every station kind carries.
#[derive(Debug)]
pub struct Envelope {
    pub color: Vec<u8>,
    pub comment: Option<Vec<u8>>,
    pub depth_in: Vec<u8>,
    pub down: Vec<u8>,
    pub excluded: Vec<u8>,
    pub explorer: Option<Vec<u8>>,
    pub left: Vec<u8>,
    pub locked: Vec<u8>,
    pub name: Option<Vec<u8>>,
    pub profile_type: Vec<u8>,
    pub right: Vec<u8>,
    pub section: Option<Vec<u8>>,
    pub shape: Shape,
    pub up: Vec<u8>,
}

pub ghost struct EnvelopeS {
    pub color: Seq<u8>,
    pub comment: Option<Seq<u8>>,
    pub depth_in: Seq<u8>,
    pub down: Seq<u8>,
    pub excluded: Seq<u8>,
    pub explorer: Option<Seq<u8>>,
    pub left: Seq<u8>,
    pub locked: Seq<u8>,
    pub name: Option<Seq<u8>>,
    pub profile_type: Seq<u8>,
    pub right: Seq<u8>,
    pub section: Option<Seq<u8>>,
    pub shape: ShapeS,
    pub up: Seq<u8>,
}

impl View for Envelope {
    type V = EnvelopeS;

    open spec fn view(&self) -> EnvelopeS {
        EnvelopeS {
            color: self.color@,
            comment: opt_view(&self.comment),
            depth_in: self.depth_in@,
            down: self.down@,
            excluded: self.excluded@,
            explorer: opt_view(&self.explorer),
            left: self.left@,
            locked: self.locked@,
            name: opt_view(&self.name),
            profile_type: self.profile_type@,
            right: self.right@,
            section: opt_view(&self.section),
            shape: self.shape@,
            up: self.up@,
        }
    }
}

/// A station record at the logical level: a tagged union over the three
/// station kinds, so that consumers never read a field that is meaningless
/// for the kind at hand.
#[derive(Debug)]
pub enum StationRecord {
    Start {
        id: i32,
        latitude: Vec<u8>,
        longitude: Vec<u8>,
        depth: Vec<u8>,
        env: Envelope,
    },
    Relative {
        id: i32,
        from_id: i32,
        azimuth: Vec<u8>,
        inclination: Vec<u8>,
        length: Vec<u8>,
        depth: Vec<u8>,
        date: Vec<u8>,
        is_virtual: bool,
        env: Envelope,
    },
    Closure {
        id: i32,
        from_id: i32,
        to_id: i32,
        env: Envelope,
    },
}

pub ghost enum StationRecordS {
    Start { id: int, latitude: Seq<u8>, longitude: Seq<u8>, depth: Seq<u8>, env: EnvelopeS },
    Relative {
        id: int,
        from_id: int,
        azimuth: Seq<u8>,
        inclination: Seq<u8>,
        length: Seq<u8>,
        depth: Seq<u8>,
        date: Seq<u8>,
        is_virtual: bool,
        env: EnvelopeS,
    },
    Closure { id: int, from_id: int, to_id: int, env: EnvelopeS },
}

impl View for StationRecord {
    type V = StationRecordS;

    open spec fn view(&self) -> StationRecordS {
        match self {
            StationRecord::Start { id, latitude, longitude, depth, env } => StationRecordS::Start {
                id: *id as int,
                latitude: latitude@,
                longitude: longitude@,
                depth: depth@,
                env: env@,
            },
            StationRecord::Relative {
                id,
                from_id,
                azimuth,
                inclination,
                length,
                depth,
                date,
                is_virtual,
                env,
            } => StationRecordS::Relative {
                id: *id as int,
                from_id: *from_id as int,
                azimuth: azimuth@,
                inclination: inclination@,
                length: length@,
                depth: depth@,
                date: date@,
                is_virtual: *is_virtual,
                env: env@,
            },
            StationRecord::Closure { id, from_id, to_id, env } => StationRecordS::Closure {
                id: *id as int,
                from_id: *from_id as int,
                to_id: *to_id as int,
                env: env@,
            },
        }
    }
}

pub open spec fn envelope_of(sd: SurveyDataS) -> EnvelopeS {
    EnvelopeS {
        color: sd.color,
        comment: sd.comment,
        depth_in: sd.depth_in,
        down: sd.down,
        excluded: sd.excluded,
        explorer: sd.explorer,
        left: sd.left,
        locked: sd.locked,
        name: sd.name,
        profile_type: sd.profile_type,
        right: sd.right,
        section: sd.section,
        shape: sd.shape,
        up: sd.up,
    }
}

/// What classifying a wire record by its station kind yields: the tagged
/// record, or nothing when the kind text is unknown.
pub open spec fn classify_s(sd: SurveyDataS) -> Option<StationRecordS> {
    if sd.station_type == s_txt_start() {
        Some(
            StationRecordS::Start {
                id: sd.id,
                latitude: sd.latitude,
                longitude: sd.longitude,
                depth: sd.depth,
                env: envelope_of(sd),
            },
        )
    } else if sd.station_type == s_txt_real() || sd.station_type == s_txt_virtual() {
        Some(
            StationRecordS::Relative {
                id: sd.id,
                from_id: sd.from_id,
                azimuth: sd.azimuth,
                inclination: sd.inclination,
                length: sd.length,
                depth: sd.depth,
                date: sd.date,
                is_virtual: sd.station_type == s_txt_virtual(),
                env: envelope_of(sd),
            },
        )
    } else if sd.station_type == s_txt_closure() {
        Some(
            StationRecordS::Closure {
                id: sd.id,
                from_id: sd.from_id,
                to_id: sd.closure_to_id,
                env: envelope_of(sd),
            },
        )
    } else {
        None
    }
}

/// The wire record a tagged record serializes as: the full flat field set,
/// with the fields that are meaningless for the kind at their defaults.
pub open spec fn to_wire_s(r: StationRecordS) -> SurveyDataS {
    let d = default_survey_s();
    match r {
        StationRecordS::Start { id, latitude, longitude, depth, env } => SurveyDataS {
            id,
            latitude,
            longitude,
            depth,
            station_type: s_txt_start(),
            ..with_env(d, env)
        },
        StationRecordS::Relative {
            id,
            from_id,
            azimuth,
            inclination,
            length,
            depth,
            date,
            is_virtual,
            env,
        } => SurveyDataS {
            id,
            from_id,
            azimuth,
            inclination,
            length,
            depth,
            date,
            station_type: if is_virtual {
                s_txt_virtual()
            } else {
                s_txt_real()
            },
            ..with_env(d, env)
        },
        StationRecordS::Closure { id, from_id, to_id, env } => SurveyDataS {
            id,
            from_id,
            closure_to_id: to_id,
            station_type: s_txt_closure(),
            ..with_env(d, env)
        },
    }
}

pub open spec fn with_env(sd: SurveyDataS, env: EnvelopeS) -> SurveyDataS {
    SurveyDataS {
        color: env.color,
        comment: env.comment,
        depth_in: env.depth_in,
        down: env.down,
        excluded: env.excluded,
        explorer: env.explorer,
        left: env.left,
        locked: env.locked,
        name: env.name,
        profile_type: env.profile_type,
        right: env.right,
        section: env.section,
        shape: env.shape,
        up: env.up,
        ..sd
    }
}

impl SurveyData {
    /// Classifies this wire record by its `station_type` text; an unknown
    /// kind is malformed input.
    pub fn classify(&self) -> (r: Result<StationRecord, CaveError>)
        ensures
            match r {
                Ok(rec) => classify_s(self@) == Some(rec@),
                Err(e) => e == CaveError::MalformedInput && classify_s(self@) is None,
            },
    {
        let env = Envelope {
            color: dup(&self.color),
            comment: dup_opt(&self.comment),
            depth_in: dup(&self.depth_in),
            down: dup(&self.down),
            excluded: dup(&self.excluded),
            explorer: dup_opt(&self.explorer),
            left: dup(&self.left),
            locked: dup(&self.locked),
            name: dup_opt(&self.name),
            profile_type: dup(&self.profile_type),
            right: dup(&self.right),
            section: dup_opt(&self.section),
            shape: dup_shape(&self.shape),
            up: dup(&self.up),
        };
        let start = b_txt_start();
        let real_t = b_txt_real();
        let virt = b_txt_virtual();
        let closure = b_txt_closure();
        if bytes_eq(self.station_type.as_slice(), start.as_slice()) {
            Ok(
                StationRecord::Start {
                    id: self.id,
                    latitude: dup(&self.latitude),
                    longitude: dup(&self.longitude),
                    depth: dup(&self.depth),
                    env,
                },
            )
        } else if bytes_eq(self.station_type.as_slice(), real_t.as_slice()) || bytes_eq(
            self.station_type.as_slice(),
            virt.as_slice(),
        ) {
            Ok(
                StationRecord::Relative {
                    id: self.id,
                    from_id: self.from_id,
                    azimuth: dup(&self.azimuth),
                    inclination: dup(&self.inclination),
                    length: dup(&self.length),
                    depth: dup(&self.depth),
                    date: dup(&self.date),
                    is_virtual: bytes_eq(self.station_type.as_slice(), virt.as_slice()),
                    env,
                },
            )
        } else if bytes_eq(self.station_type.as_slice(), closure.as_slice()) {
            Ok(
                StationRecord::Closure {
                    id: self.id,
                    from_id: self.from_id,
                    to_id: self.closure_to_id,
                    env,
                },
            )
        } else {
            Err(CaveError::MalformedInput)
        }
    }
}

/// Copies a shape value.
pub fn dup_shape(sh: &Shape) -> (r: Shape)
    ensures
        r@ == sh@,
{
    let mut rc: Vec<RadiusVector> = Vec::new();
    let mut i: usize = 0;
    while i < sh.radius_collection.len()
        invariant
            i <= sh.radius_collection@.len(),
            rc@.len() == i as int,
            forall|k: int| 0 <= k < i ==> #[trigger] rc@[k]@ == sh.radius_collection@[k]@,
        decreases sh.radius_collection@.len() - i,
    {
        let ghost rc0 = rc@;
        let rv = &sh.radius_collection[i];
        let copy = RadiusVector {
            angle: dup(&rv.angle),
            length: dup(&rv.length),
            tension_corridor: dup(&rv.tension_corridor),
            tension_profile: dup(&rv.tension_profile),
        };
        assert(copy@ == sh.radius_collection@[i as int]@);
        rc.push(copy);
        proof {
            assert(rc@ == rc0.push(copy));
            assert forall|k: int| 0 <= k < i + 1 implies #[trigger] rc@[k]@
                == sh.radius_collection@[k]@ by {
                if k < i {
                    assert(rc@[k] == rc0[k]);
                }
            }
        }
        i += 1;
    }
    let r = Shape {
        has_profile_azimut: dup(&sh.has_profile_azimut),
        has_profile_tilt: dup(&sh.has_profile_tilt),
        profile_azimut: dup(&sh.profile_azimut),
        profile_tilt: dup(&sh.profile_tilt),
        radius_collection: rc,
    };
    assert(rc_views(rc@) =~= rc_views(sh.radius_collection@));
    r
}

impl StationRecord {
    /// Serializes this tagged record into the flat wire form, the fields
    /// that are meaningless for its kind set to their defaults.
    pub fn to_wire(&self) -> (r: SurveyData)
        ensures
            r@ == to_wire_s(self@),
    {
        let mut out = SurveyData::default();
        match self {
            StationRecord::Start { id, latitude, longitude, depth, env } => {
                out.id = *id;
                out.latitude = dup(latitude);
                out.longitude = dup(longitude);
                out.depth = dup(depth);
                out.station_type = b_txt_start();
                set_env(&mut out, env);
            },
            StationRecord::Relative {
                id,
                from_id,
                azimuth,
                inclination,
                length,
                depth,
                date,
                is_virtual,
                env,
            } => {
                out.id = *id;
                out.from_id = *from_id;
                out.azimuth = dup(azimuth);
                out.inclination = dup(inclination);
                out.length = dup(length);
                out.depth = dup(depth);
                out.date = dup(date);
                out.station_type = if *is_virtual {
                    b_txt_virtual()
                } else {
                    b_txt_real()
                };
                set_env(&mut out, env);
            },
            StationRecord::Closure { id, from_id, to_id, env } => {
                out.id = *id;
                out.from_id = *from_id;
                out.closure_to_id = *to_id;
                out.station_type = b_txt_closure();
                set_env(&mut out, env);
            },
        }
        out
    }
}

fn set_env(out: &mut SurveyData, env: &Envelope)
    ensures
        final(out)@ == with_env(old(out)@, env@),
{
    out.color = dup(&env.color);
    out.comment = dup_opt(&env.comment);
    out.depth_in = dup(&env.depth_in);
    out.down = dup(&env.down);
    out.excluded = dup(&env.excluded);
    out.explorer = dup_opt(&env.explorer);
    out.left = dup(&env.left);
    out.locked = dup(&env.locked);
    out.name = dup_opt(&env.name);
    out.profile_type = dup(&env.profile_type);
    out.right = dup(&env.right);
    out.section = dup_opt(&env.section);
    out.shape = dup_shape(&env.shape);
    out.up = dup(&env.up);
}

/// A tagged record serializes and classifies back to itself: the logical
/// and the wire representation are connected losslessly in this direction.
pub proof fn lemma_classify_of_to_wire(r: StationRecordS)
    ensures
        classify_s(to_wire_s(r)) == Some(r),
{
    crate::names::lemma_distinct_kind_texts();
}

/// Classifying and re-serializing is the identity on wire records whose
/// kind is known and whose meaningless fields sit at their defaults.
pub proof fn lemma_to_wire_of_classify(sd: SurveyDataS)
    requires
        classify_s(sd) is Some,
        wire_normal(sd),
    ensures
        to_wire_s(classify_s(sd)->Some_0) == sd,
{
}

/// The fields that are meaningless for the station kind of `sd` sit at
/// their default values.
pub open spec fn wire_normal(sd: SurveyDataS) -> bool {
    let d = default_survey_s();
    if sd.station_type == s_txt_start() {
        sd.azimuth == d.azimuth && sd.inclination == d.inclination && sd.length == d.length
            && sd.date == d.date && sd.from_id == d.from_id && sd.closure_to_id == d.closure_to_id
    } else if sd.station_type == s_txt_real() || sd.station_type == s_txt_virtual() {
        sd.latitude == d.latitude && sd.longitude == d.longitude && sd.closure_to_id
            == d.closure_to_id
    } else if sd.station_type == s_txt_closure() {
        sd.azimuth == d.azimuth && sd.inclination == d.inclination && sd.length == d.length
            && sd.date == d.date && sd.latitude == d.latitude && sd.longitude == d.longitude
            && sd.depth == d.depth
    } else {
        true
    }
}

} // verus!
