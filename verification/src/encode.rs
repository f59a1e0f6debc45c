//! The encoder: a deterministic writer producing the fixed element order of
//! the format, with a newline before every tag except the closing tag of an
//! element that holds text, self-closing empty elements, and escaping on
//! the free-text fields only.
use vstd::prelude::*;
use crate::model::{
    data_views, opt_text, opt_view, CaveFileInfo, CaveFileInfoS, LayerList, RadiusVector,
    RadiusVectorS, Shape, ShapeS, SurveyData, SurveyDataS,
};
use crate::names as nm;
use crate::text::{escape, escape_bytes, fmt_i32, i32_text};

verus! {

/// `\n<name>`: every element opens on a fresh line.
pub open spec fn open_tag(name: Seq<u8>) -> Seq<u8> {
    seq![10u8, 60u8] + name + seq![62u8]
}

/// `</name>` directly after text content.
pub open spec fn close_tag_inline(name: Seq<u8>) -> Seq<u8> {
    seq![60u8, 47u8] + name + seq![62u8]
}

/// `\n</name>` after child elements.
pub open spec fn close_tag_nl(name: Seq<u8>) -> Seq<u8> {
    seq![10u8] + close_tag_inline(name)
}

/// `\n<name/>`: an empty element is self-closing, never pad-closed.
pub open spec fn empty_elem(name: Seq<u8>) -> Seq<u8> {
    seq![10u8, 60u8] + name + seq![47u8, 62u8]
}

/// An element holding exactly the given (already escaped) content.
pub open spec fn elem(name: Seq<u8>, content: Seq<u8>) -> Seq<u8> {
    open_tag(name) + content + close_tag_inline(name)
}

/// An element holding free text, escaped.
pub open spec fn elem_esc(name: Seq<u8>, raw: Seq<u8>) -> Seq<u8> {
    elem(name, escape(raw))
}

pub open spec fn render_radius(rv: RadiusVectorS) -> Seq<u8> {
    open_tag(nm::s_rv()) + elem(nm::s_ag_low(), rv.angle) + elem(nm::s_lg_low(), rv.length) + elem(
        nm::s_tc_low(),
        rv.tension_corridor,
    ) + elem(nm::s_tp_low(), rv.tension_profile) + close_tag_nl(nm::s_rv())
}

pub open spec fn render_radii_from(rc: Seq<RadiusVectorS>, i: int) -> Seq<u8>
    decreases rc.len() - i when 0 <= i
{
    if i >= rc.len() {
        Seq::empty()
    } else {
        render_radius(rc[i]) + render_radii_from(rc, i + 1)
    }
}

pub open spec fn render_shape(sh: ShapeS) -> Seq<u8> {
    open_tag(nm::s_sh()) + elem(nm::s_hpra(), sh.has_profile_azimut) + elem(
        nm::s_hprt(),
        sh.has_profile_tilt,
    ) + elem(nm::s_praz(), sh.profile_azimut) + elem(nm::s_prt(), sh.profile_tilt) + (
    if sh.radius_collection.len() == 0 {
        empty_elem(nm::s_rc())
    } else {
        open_tag(nm::s_rc()) + render_radii_from(sh.radius_collection, 0) + close_tag_nl(
            nm::s_rc(),
        )
    }) + close_tag_nl(nm::s_sh())
}

/// One `SRVD` element: the full fixed field set in canonical order,
/// whatever the station kind.
pub open spec fn render_record(sd: SurveyDataS) -> Seq<u8> {
    open_tag(nm::s_srvd()) + elem(nm::s_az(), sd.azimuth) + elem(
        nm::s_cid(),
        i32_text(sd.closure_to_id),
    ) + elem(nm::s_cl(), sd.color) + elem_esc(nm::s_cm(), opt_text(sd.comment)) + elem(
        nm::s_dt(),
        sd.date,
    ) + elem(nm::s_dp(), sd.depth) + elem(nm::s_dpi(), sd.depth_in) + elem_esc(nm::s_d(), sd.down)
        + elem_esc(nm::s_exc(), sd.excluded) + elem_esc(nm::s_ex(), opt_text(sd.explorer)) + elem(
        nm::s_frid(),
        i32_text(sd.from_id),
    ) + elem(nm::s_id(), i32_text(sd.id)) + elem(nm::s_inc(), sd.inclination) + elem(
        nm::s_lt(),
        sd.latitude,
    ) + elem(nm::s_l(), sd.left) + elem(nm::s_lg(), sd.length) + elem(nm::s_lk(), sd.locked) + elem(
        nm::s_lgt(),
        sd.longitude,
    ) + elem_esc(nm::s_nm(), opt_text(sd.name)) + elem(nm::s_prty(), sd.profile_type) + elem(
        nm::s_r(),
        sd.right,
    ) + elem_esc(nm::s_sc(), opt_text(sd.section)) + render_shape(sd.shape) + elem(
        nm::s_ty(),
        sd.station_type,
    ) + elem(nm::s_u(), sd.up) + close_tag_nl(nm::s_srvd())
}

pub open spec fn render_records_from(data: Seq<SurveyDataS>, i: int) -> Seq<u8>
    decreases data.len() - i when 0 <= i
{
    if i >= data.len() {
        Seq::empty()
    } else {
        render_record(data[i]) + render_records_from(data, i + 1)
    }
}

/// One fixed layer entry of the trailer.
pub open spec fn render_layer(name: Seq<u8>) -> Seq<u8> {
    open_tag(nm::s_layer_list()) + elem(nm::s_constant(), nm::s_txt_true()) + elem(
        nm::s_locked(),
        nm::s_txt_false(),
    ) + elem(nm::s_name_tag(), name) + open_tag(nm::s_style()) + elem(
        nm::s_dash_scale(),
        nm::s_txt_one(),
    ) + elem(nm::s_fill_color(), nm::s_txt_fill()) + elem(nm::s_line_type(), nm::s_txt_standard())
        + elem(nm::s_line_type_scale(), nm::s_txt_one()) + elem(
        nm::s_opacity(),
        nm::s_txt_hundred(),
    ) + elem(nm::s_size_mode(), nm::s_txt_switchable()) + elem(
        nm::s_stroke_color(),
        nm::s_txt_stroke(),
    ) + elem(nm::s_stroke_thickness(), nm::s_txt_one()) + close_tag_nl(nm::s_style()) + elem(
        nm::s_visible(),
        nm::s_txt_true(),
    ) + close_tag_nl(nm::s_layer_list())
}

/// Everything before the `Data` element.
pub open spec fn render_head(info: CaveFileInfoS) -> Seq<u8> {
    nm::s_decl() + open_tag(nm::s_cave_file()) + elem_esc(nm::s_cave_name(), info.cave_name)
        + elem_esc(nm::s_elevation(), info.first_start_absolute_elevation) + elem_esc(
        nm::s_geo_coding(),
        info.geo_coding,
    ) + empty_elem(nm::s_list_annotation())
}

/// The `Data` element: self-closing when there are no records.
pub open spec fn render_data(data: Seq<SurveyDataS>) -> Seq<u8> {
    if data.len() == 0 {
        empty_elem(nm::s_data())
    } else {
        open_tag(nm::s_data()) + render_records_from(data, 0) + close_tag_nl(nm::s_data())
    }
}

/// Everything after the `Data` element: the remaining header fields and
/// the structurally constant trailer.
pub open spec fn render_tail(info: CaveFileInfoS) -> Seq<u8> {
    elem_esc(nm::s_unit(), info.unit) + elem_esc(nm::s_use_mag(), info.use_magnetic_azimuth)
        + empty_elem(nm::s_constraints()) + empty_elem(nm::s_carto_line()) + empty_elem(
        nm::s_carto_page(),
    ) + empty_elem(nm::s_carto_rectangle()) + empty_elem(nm::s_carto_selection()) + empty_elem(
        nm::s_carto_ellipse(),
    ) + empty_elem(nm::s_carto_spline()) + open_tag(nm::s_layers()) + render_layer(
        nm::s_txt_overlay(),
    ) + render_layer(nm::s_txt_default()) + close_tag_nl(nm::s_layers()) + empty_elem(
        nm::s_carto_overlay(),
    ) + empty_elem(nm::s_carto_linked()) + close_tag_nl(nm::s_cave_file())
}

/// The full byte image of a document.
pub open spec fn render_doc(info: CaveFileInfoS, data: Seq<SurveyDataS>) -> Seq<u8> {
    render_head(info) + render_data(data) + render_tail(info)
}

fn push_open(out: &mut Vec<u8>, name: &Vec<u8>)
    ensures
        final(out)@ == old(out)@ + open_tag(name@),
{
    let ghost base = out@;
    out.push(10);
    out.push(60);
    out.extend_from_slice(name.as_slice());
    out.push(62);
    assert(out@ =~= base + open_tag(name@));
}

fn push_close_inline(out: &mut Vec<u8>, name: &Vec<u8>)
    ensures
        final(out)@ == old(out)@ + close_tag_inline(name@),
{
    let ghost base = out@;
    out.push(60);
    out.push(47);
    out.extend_from_slice(name.as_slice());
    out.push(62);
    assert(out@ =~= base + close_tag_inline(name@));
}

fn push_close_nl(out: &mut Vec<u8>, name: &Vec<u8>)
    ensures
        final(out)@ == old(out)@ + close_tag_nl(name@),
{
    let ghost base = out@;
    out.push(10);
    push_close_inline(out, name);
    assert(out@ =~= base + close_tag_nl(name@));
}

fn push_empty(out: &mut Vec<u8>, name: &Vec<u8>)
    ensures
        final(out)@ == old(out)@ + empty_elem(name@),
{
    let ghost base = out@;
    out.push(10);
    out.push(60);
    out.extend_from_slice(name.as_slice());
    out.push(47);
    out.push(62);
    assert(out@ =~= base + empty_elem(name@));
}

fn push_elem(out: &mut Vec<u8>, name: &Vec<u8>, content: &[u8])
    ensures
        final(out)@ == old(out)@ + elem(name@, content@),
{
    let ghost base = out@;
    push_open(out, name);
    out.extend_from_slice(content);
    push_close_inline(out, name);
    assert(out@ =~= base + elem(name@, content@));
}

fn push_elem_esc(out: &mut Vec<u8>, name: &Vec<u8>, raw: &[u8])
    ensures
        final(out)@ == old(out)@ + elem_esc(name@, raw@),
{
    let e = escape_bytes(raw);
    push_elem(out, name, e.as_slice());
}

fn push_radius(out: &mut Vec<u8>, rv: &RadiusVector)
    ensures
        final(out)@ == old(out)@ + render_radius(rv@),
{
    let ghost base = out@;
    let t_rv = nm::b_rv();
    push_open(out, &t_rv);
    push_elem(out, &nm::b_ag_low(), rv.angle.as_slice());
    push_elem(out, &nm::b_lg_low(), rv.length.as_slice());
    push_elem(out, &nm::b_tc_low(), rv.tension_corridor.as_slice());
    push_elem(out, &nm::b_tp_low(), rv.tension_profile.as_slice());
    push_close_nl(out, &t_rv);
    assert(out@ =~= base + render_radius(rv@));
}

fn push_shape(out: &mut Vec<u8>, sh: &Shape)
    ensures
        final(out)@ == old(out)@ + render_shape(sh@),
{
    let ghost base = out@;
    let t_sh = nm::b_sh();
    let t_rc = nm::b_rc();
    push_open(out, &t_sh);
    push_elem(out, &nm::b_hpra(), sh.has_profile_azimut.as_slice());
    push_elem(out, &nm::b_hprt(), sh.has_profile_tilt.as_slice());
    push_elem(out, &nm::b_praz(), sh.profile_azimut.as_slice());
    push_elem(out, &nm::b_prt(), sh.profile_tilt.as_slice());
    if sh.radius_collection.len() == 0 {
        push_empty(out, &t_rc);
    } else {
        push_open(out, &t_rc);
        let ghost mid = out@;
        let ghost views = sh@.radius_collection;
        let mut i: usize = 0;
        while i < sh.radius_collection.len()
            invariant
                i <= sh.radius_collection@.len(),
                views == sh@.radius_collection,
                views.len() == sh.radius_collection@.len(),
                out@ + render_radii_from(views, i as int) == mid + render_radii_from(views, 0),
            decreases sh.radius_collection@.len() - i,
        {
            let ghost before = out@;
            push_radius(out, &sh.radius_collection[i]);
            proof {
                assert(views[i as int] == sh.radius_collection@[i as int]@);
                assert(render_radii_from(views, i as int) == render_radius(views[i as int])
                    + render_radii_from(views, i + 1));
                assert(before + (render_radius(views[i as int]) + render_radii_from(
                    views,
                    i + 1,
                )) =~= out@ + render_radii_from(views, i + 1));
            }
            i += 1;
        }
        assert(render_radii_from(views, views.len() as int) =~= Seq::<u8>::empty());
        assert(out@ =~= out@ + render_radii_from(views, views.len() as int));
        push_close_nl(out, &t_rc);
    }
    push_close_nl(out, &t_sh);
    assert(out@ =~= base + render_shape(sh@));
}

#[verifier::rlimit(100)]
fn push_record(out: &mut Vec<u8>, sd: &SurveyData)
    ensures
        final(out)@ == old(out)@ + render_record(sd@),
{
    let ghost base = out@;
    let t_srvd = nm::b_srvd();
    push_open(out, &t_srvd);
    push_elem(out, &nm::b_az(), sd.azimuth.as_slice());
    let cid = fmt_i32(sd.closure_to_id);
    push_elem(out, &nm::b_cid(), cid.as_slice());
    push_elem(out, &nm::b_cl(), sd.color.as_slice());
    let cm = opt_slice(&sd.comment);
    push_elem_esc(out, &nm::b_cm(), cm);
    push_elem(out, &nm::b_dt(), sd.date.as_slice());
    push_elem(out, &nm::b_dp(), sd.depth.as_slice());
    push_elem(out, &nm::b_dpi(), sd.depth_in.as_slice());
    push_elem_esc(out, &nm::b_d(), sd.down.as_slice());
    push_elem_esc(out, &nm::b_exc(), sd.excluded.as_slice());
    let ex = opt_slice(&sd.explorer);
    push_elem_esc(out, &nm::b_ex(), ex);
    let frid = fmt_i32(sd.from_id);
    push_elem(out, &nm::b_frid(), frid.as_slice());
    let idt = fmt_i32(sd.id);
    push_elem(out, &nm::b_id(), idt.as_slice());
    push_elem(out, &nm::b_inc(), sd.inclination.as_slice());
    push_elem(out, &nm::b_lt(), sd.latitude.as_slice());
    push_elem(out, &nm::b_l(), sd.left.as_slice());
    push_elem(out, &nm::b_lg(), sd.length.as_slice());
    push_elem(out, &nm::b_lk(), sd.locked.as_slice());
    push_elem(out, &nm::b_lgt(), sd.longitude.as_slice());
    let nmv = opt_slice(&sd.name);
    push_elem_esc(out, &nm::b_nm(), nmv);
    push_elem(out, &nm::b_prty(), sd.profile_type.as_slice());
    push_elem(out, &nm::b_r(), sd.right.as_slice());
    let sc = opt_slice(&sd.section);
    push_elem_esc(out, &nm::b_sc(), sc);
    push_shape(out, &sd.shape);
    push_elem(out, &nm::b_ty(), sd.station_type.as_slice());
    push_elem(out, &nm::b_u(), sd.up.as_slice());
    push_close_nl(out, &t_srvd);
    assert(out@ =~= base + render_record(sd@));
}

/// The text slice an optional field contributes: its content or nothing.
fn opt_slice(v: &Option<Vec<u8>>) -> (r: &[u8])
    ensures
        r@ == opt_text(opt_view(v)),
{
    match v {
        Some(x) => {
            let s = x.as_slice();
            s
        },
        None => {
            let s: &[u8] = &[];
            assert(s@ =~= opt_text(opt_view(v)));
            s
        },
    }
}

fn push_layer(out: &mut Vec<u8>, layer: &LayerList)
    requires
        layer@.constant == nm::s_txt_true(),
        layer@.locked == nm::s_txt_false(),
        layer@.style == crate::model::default_style_s(),
        layer@.visible == nm::s_txt_true(),
    ensures
        final(out)@ == old(out)@ + render_layer(layer@.name),
{
    let ghost base = out@;
    let t_layer = nm::b_layer_list();
    let t_style = nm::b_style();
    push_open(out, &t_layer);
    push_elem(out, &nm::b_constant(), layer.constant.as_slice());
    push_elem(out, &nm::b_locked(), layer.locked.as_slice());
    push_elem(out, &nm::b_name_tag(), layer.name.as_slice());
    push_open(out, &t_style);
    push_elem(out, &nm::b_dash_scale(), layer.style.dash_scale.as_slice());
    push_elem(out, &nm::b_fill_color(), layer.style.fill_color_string.as_slice());
    push_elem(out, &nm::b_line_type(), layer.style.line_type.as_slice());
    push_elem(out, &nm::b_line_type_scale(), layer.style.line_type_scale.as_slice());
    push_elem(out, &nm::b_opacity(), layer.style.opacity.as_slice());
    push_elem(out, &nm::b_size_mode(), layer.style.size_mode.as_slice());
    push_elem(out, &nm::b_stroke_color(), layer.style.stroke_color_string.as_slice());
    push_elem(out, &nm::b_stroke_thickness(), layer.style.stroke_thickness.as_slice());
    push_close_nl(out, &t_style);
    push_elem(out, &nm::b_visible(), layer.visible.as_slice());
    push_close_nl(out, &t_layer);
    assert(out@ =~= base + render_layer(layer@.name));
}

/// Serializes a document: the header fields, every station record in
/// order, and the fixed trailer, in the exact byte shape of the format.
#[verifier::rlimit(100)]
pub fn write_cavefile(survey_data: &Vec<SurveyData>, info: &CaveFileInfo) -> (out: Vec<u8>)
    ensures
        out@ == render_doc(info@, data_views(survey_data@)),
{
    let mut out: Vec<u8> = Vec::new();
    let decl = nm::b_decl();
    out.extend_from_slice(decl.as_slice());
    assert(out@ =~= nm::s_decl());
    let t_root = nm::b_cave_file();
    push_open(&mut out, &t_root);
    push_elem_esc(&mut out, &nm::b_cave_name(), info.cave_name.as_slice());
    push_elem_esc(&mut out, &nm::b_elevation(), info.first_start_absolute_elevation.as_slice());
    push_elem_esc(&mut out, &nm::b_geo_coding(), info.geo_coding.as_slice());
    push_empty(&mut out, &nm::b_list_annotation());
    assert(out@ =~= render_head(info@));
    let ghost views = data_views(survey_data@);
    let t_data = nm::b_data();
    if survey_data.len() == 0 {
        push_empty(&mut out, &t_data);
    } else {
        push_open(&mut out, &t_data);
        let ghost mid = out@;
        let mut i: usize = 0;
        while i < survey_data.len()
            invariant
                i <= survey_data@.len(),
                views == data_views(survey_data@),
                views.len() == survey_data@.len(),
                out@ + render_records_from(views, i as int) == mid + render_records_from(views, 0),
            decreases survey_data@.len() - i,
        {
            let ghost before = out@;
            push_record(&mut out, &survey_data[i]);
            proof {
                assert(views[i as int] == survey_data@[i as int]@);
                assert(render_records_from(views, i as int) == render_record(views[i as int])
                    + render_records_from(views, i + 1));
                assert(before + (render_record(views[i as int]) + render_records_from(
                    views,
                    i + 1,
                )) =~= out@ + render_records_from(views, i + 1));
            }
            i += 1;
        }
        assert(render_records_from(views, views.len() as int) =~= Seq::<u8>::empty());
        assert(out@ =~= out@ + render_records_from(views, views.len() as int));
        push_close_nl(&mut out, &t_data);
    }
    assert(out@ =~= render_head(info@) + render_data(views));
    let ghost before_tail = out@;
    push_elem_esc(&mut out, &nm::b_unit(), info.unit.as_slice());
    push_elem_esc(&mut out, &nm::b_use_mag(), info.use_magnetic_azimuth.as_slice());
    push_empty(&mut out, &nm::b_constraints());
    push_empty(&mut out, &nm::b_carto_line());
    push_empty(&mut out, &nm::b_carto_page());
    push_empty(&mut out, &nm::b_carto_rectangle());
    push_empty(&mut out, &nm::b_carto_selection());
    push_empty(&mut out, &nm::b_carto_ellipse());
    push_empty(&mut out, &nm::b_carto_spline());
    push_open(&mut out, &nm::b_layers());
    let overlay = LayerList::new(nm::b_txt_overlay());
    push_layer(&mut out, &overlay);
    let base_layer = LayerList::new(nm::b_txt_default());
    push_layer(&mut out, &base_layer);
    push_close_nl(&mut out, &nm::b_layers());
    push_empty(&mut out, &nm::b_carto_overlay());
    push_empty(&mut out, &nm::b_carto_linked());
    push_close_nl(&mut out, &t_root);
    assert(out@ =~= before_tail + render_tail(info@));
    out
}

} // verus!
