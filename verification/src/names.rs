//! Byte constants: the element names and fixed text tokens of the format.
use vstd::prelude::*;

verus! {

pub open spec fn s_cave_file() -> Seq<u8> {
    seq![67u8, 97, 118, 101, 70, 105, 108, 101]
}

pub fn b_cave_file() -> (r: Vec<u8>)
    ensures
        r@ == s_cave_file(),
{
    let a: [u8; 8] = [67, 97, 118, 101, 70, 105, 108, 101];
    let mut r: Vec<u8> = Vec::new();
    r.extend_from_slice(a.as_slice());
    assert(r@ =~= s_cave_file());
    r
}

pub open spec fn s_cave_name() -> Seq<u8> {
    seq![99u8, 97, 118, 101, 78, 97, 109, 101]
}

pub fn b_cave_name() -> (r: Vec<u8>)
    ensures
        r@ == s_cave_name(),
{
    let a: [u8; 8] = [99, 97, 118, 101, 78, 97, 109, 101];
    let mut r: Vec<u8> = Vec::new();
    r.extend_from_slice(a.as_slice());
    assert(r@ =~= s_cave_name());
    r
}

pub open spec fn s_elevation() -> Seq<u8> {
    seq![102u8, 105, 114, 115, 116, 83, 116, 97, 114, 116, 65, 98, 115, 111, 108, 117, 116, 101, 69, 108, 101, 118, 97, 116, 105, 111, 110]
}

pub fn b_elevation() -> (r: Vec<u8>)
    ensures
        r@ == s_elevation(),
{
    let a: [u8; 27] = [102, 105, 114, 115, 116, 83, 116, 97, 114, 116, 65, 98, 115, 111, 108, 117, 116, 101, 69, 108, 101, 118, 97, 116, 105, 111, 110];
    let mut r: Vec<u8> = Vec::new();
    r.extend_from_slice(a.as_slice());
    assert(r@ =~= s_elevation());
    r
}

pub open spec fn s_geo_coding() -> Seq<u8> {
    seq![103u8, 101, 111, 67, 111, 100, 105, 110, 103]
}

pub fn b_geo_coding() -> (r: Vec<u8>)
    ensures
        r@ == s_geo_coding(),
{
    let a: [u8; 9] = [103, 101, 111, 67, 111, 100, 105, 110, 103];
    let mut r: Vec<u8> = Vec::new();
    r.extend_from_slice(a.as_slice());
    assert(r@ =~= s_geo_coding());
    r
}

pub open spec fn s_list_annotation() -> Seq<u8> {
    seq![76u8, 105, 115, 116, 65, 110, 110, 111, 116, 97, 116, 105, 111, 110]
}

pub fn b_list_annotation() -> (r: Vec<u8>)
    ensures
        r@ == s_list_annotation(),
{
    let a: [u8; 14] = [76, 105, 115, 116, 65, 110, 110, 111, 116, 97, 116, 105, 111, 110];
    let mut r: Vec<u8> = Vec::new();
    r.extend_from_slice(a.as_slice());
    assert(r@ =~= s_list_annotation());
    r
}

pub open spec fn s_data() -> Seq<u8> {
    seq![68u8, 97, 116, 97]
}

pub fn b_data() -> (r: Vec<u8>)
    ensures
        r@ == s_data(),
{
    let a: [u8; 4] = [68, 97, 116, 97];
    let mut r: Vec<u8> = Vec::new();
    r.extend_from_slice(a.as_slice());
    assert(r@ =~= s_data());
    r
}

pub open spec fn s_srvd() -> Seq<u8> {
    seq![83u8, 82, 86, 68]
}

pub fn b_srvd() -> (r: Vec<u8>)
    ensures
        r@ == s_srvd(),
{
    let a: [u8; 4] = [83, 82, 86, 68];
    let mut r: Vec<u8> = Vec::new();
    r.extend_from_slice(a.as_slice());
    assert(r@ =~= s_srvd());
    r
}

pub open spec fn s_az() -> Seq<u8> {
    seq![65u8, 90]
}

pub fn b_az() -> (r: Vec<u8>)
    ensures
        r@ == s_az(),
{
    let a: [u8; 2] = [65, 90];
    let mut r: Vec<u8> = Vec::new();
    r.extend_from_slice(a.as_slice());
    assert(r@ =~= s_az());
    r
}

pub open spec fn s_cid() -> Seq<u8> {
    seq![67u8, 73, 68]
}

pub fn b_cid() -> (r: Vec<u8>)
    ensures
        r@ == s_cid(),
{
    let a: [u8; 3] = [67, 73, 68];
    let mut r: Vec<u8> = Vec::new();
    r.extend_from_slice(a.as_slice());
    assert(r@ =~= s_cid());
    r
}

pub open spec fn s_cl() -> Seq<u8> {
    seq![67u8, 76]
}

pub fn b_cl() -> (r: Vec<u8>)
    ensures
        r@ == s_cl(),
{
    let a: [u8; 2] = [67, 76];
    let mut r: Vec<u8> = Vec::new();
    r.extend_from_slice(a.as_slice());
    assert(r@ =~= s_cl());
    r
}

pub open spec fn s_cm() -> Seq<u8> {
    seq![67u8, 77]
}

pub fn b_cm() -> (r: Vec<u8>)
    ensures
        r@ == s_cm(),
{
    let a: [u8; 2] = [67, 77];
    let mut r: Vec<u8> = Vec::new();
    r.extend_from_slice(a.as_slice());
    assert(r@ =~= s_cm());
    r
}

pub open spec fn s_dt() -> Seq<u8> {
    seq![68u8, 84]
}

pub fn b_dt() -> (r: Vec<u8>)
    ensures
        r@ == s_dt(),
{
    let a: [u8; 2] = [68, 84];
    let mut r: Vec<u8> = Vec::new();
    r.extend_from_slice(a.as_slice());
    assert(r@ =~= s_dt());
    r
}

pub open spec fn s_dp() -> Seq<u8> {
    seq![68u8, 80]
}

pub fn b_dp() -> (r: Vec<u8>)
    ensures
        r@ == s_dp(),
{
    let a: [u8; 2] = [68, 80];
    let mut r: Vec<u8> = Vec::new();
    r.extend_from_slice(a.as_slice());
    assert(r@ =~= s_dp());
    r
}

pub open spec fn s_dpi() -> Seq<u8> {
    seq![68u8, 80, 73]
}

pub fn b_dpi() -> (r: Vec<u8>)
    ensures
        r@ == s_dpi(),
{
    let a: [u8; 3] = [68, 80, 73];
    let mut r: Vec<u8> = Vec::new();
    r.extend_from_slice(a.as_slice());
    assert(r@ =~= s_dpi());
    r
}

pub open spec fn s_d() -> Seq<u8> {
    seq![68u8]
}

pub fn b_d() -> (r: Vec<u8>)
    ensures
        r@ == s_d(),
{
    let a: [u8; 1] = [68];
    let mut r: Vec<u8> = Vec::new();
    r.extend_from_slice(a.as_slice());
    assert(r@ =~= s_d());
    r
}

pub open spec fn s_exc() -> Seq<u8> {
    seq![69u8, 88, 67]
}

pub fn b_exc() -> (r: Vec<u8>)
    ensures
        r@ == s_exc(),
{
    let a: [u8; 3] = [69, 88, 67];
    let mut r: Vec<u8> = Vec::new();
    r.extend_from_slice(a.as_slice());
    assert(r@ =~= s_exc());
    r
}

pub open spec fn s_ex() -> Seq<u8> {
    seq![69u8, 88]
}

pub fn b_ex() -> (r: Vec<u8>)
    ensures
        r@ == s_ex(),
{
    let a: [u8; 2] = [69, 88];
    let mut r: Vec<u8> = Vec::new();
    r.extend_from_slice(a.as_slice());
    assert(r@ =~= s_ex());
    r
}

pub open spec fn s_frid() -> Seq<u8> {
    seq![70u8, 82, 73, 68]
}

pub fn b_frid() -> (r: Vec<u8>)
    ensures
        r@ == s_frid(),
{
    let a: [u8; 4] = [70, 82, 73, 68];
    let mut r: Vec<u8> = Vec::new();
    r.extend_from_slice(a.as_slice());
    assert(r@ =~= s_frid());
    r
}

pub open spec fn s_id() -> Seq<u8> {
    seq![73u8, 68]
}

pub fn b_id() -> (r: Vec<u8>)
    ensures
        r@ == s_id(),
{
    let a: [u8; 2] = [73, 68];
    let mut r: Vec<u8> = Vec::new();
    r.extend_from_slice(a.as_slice());
    assert(r@ =~= s_id());
    r
}

pub open spec fn s_inc() -> Seq<u8> {
    seq![73u8, 78, 67]
}

pub fn b_inc() -> (r: Vec<u8>)
    ensures
        r@ == s_inc(),
{
    let a: [u8; 3] = [73, 78, 67];
    let mut r: Vec<u8> = Vec::new();
    r.extend_from_slice(a.as_slice());
    assert(r@ =~= s_inc());
    r
}

pub open spec fn s_lt() -> Seq<u8> {
    seq![76u8, 84]
}

pub fn b_lt() -> (r: Vec<u8>)
    ensures
        r@ == s_lt(),
{
    let a: [u8; 2] = [76, 84];
    let mut r: Vec<u8> = Vec::new();
    r.extend_from_slice(a.as_slice());
    assert(r@ =~= s_lt());
    r
}

pub open spec fn s_l() -> Seq<u8> {
    seq![76u8]
}

pub fn b_l() -> (r: Vec<u8>)
    ensures
        r@ == s_l(),
{
    let a: [u8; 1] = [76];
    let mut r: Vec<u8> = Vec::new();
    r.extend_from_slice(a.as_slice());
    assert(r@ =~= s_l());
    r
}

pub open spec fn s_lg() -> Seq<u8> {
    seq![76u8, 71]
}

pub fn b_lg() -> (r: Vec<u8>)
    ensures
        r@ == s_lg(),
{
    let a: [u8; 2] = [76, 71];
    let mut r: Vec<u8> = Vec::new();
    r.extend_from_slice(a.as_slice());
    assert(r@ =~= s_lg());
    r
}

pub open spec fn s_lk() -> Seq<u8> {
    seq![76u8, 75]
}

pub fn b_lk() -> (r: Vec<u8>)
    ensures
        r@ == s_lk(),
{
    let a: [u8; 2] = [76, 75];
    let mut r: Vec<u8> = Vec::new();
    r.extend_from_slice(a.as_slice());
    assert(r@ =~= s_lk());
    r
}

pub open spec fn s_lgt() -> Seq<u8> {
    seq![76u8, 71, 84]
}

pub fn b_lgt() -> (r: Vec<u8>)
    ensures
        r@ == s_lgt(),
{
    let a: [u8; 3] = [76, 71, 84];
    let mut r: Vec<u8> = Vec::new();
    r.extend_from_slice(a.as_slice());
    assert(r@ =~= s_lgt());
    r
}

pub open spec fn s_nm() -> Seq<u8> {
    seq![78u8, 77]
}

pub fn b_nm() -> (r: Vec<u8>)
    ensures
        r@ == s_nm(),
{
    let a: [u8; 2] = [78, 77];
    let mut r: Vec<u8> = Vec::new();
    r.extend_from_slice(a.as_slice());
    assert(r@ =~= s_nm());
    r
}

pub open spec fn s_prty() -> Seq<u8> {
    seq![80u8, 82, 84, 89]
}

pub fn b_prty() -> (r: Vec<u8>)
    ensures
        r@ == s_prty(),
{
    let a: [u8; 4] = [80, 82, 84, 89];
    let mut r: Vec<u8> = Vec::new();
    r.extend_from_slice(a.as_slice());
    assert(r@ =~= s_prty());
    r
}

pub open spec fn s_r() -> Seq<u8> {
    seq![82u8]
}

pub fn b_r() -> (r: Vec<u8>)
    ensures
        r@ == s_r(),
{
    let a: [u8; 1] = [82];
    let mut r: Vec<u8> = Vec::new();
    r.extend_from_slice(a.as_slice());
    assert(r@ =~= s_r());
    r
}

pub open spec fn s_sc() -> Seq<u8> {
    seq![83u8, 67]
}

pub fn b_sc() -> (r: Vec<u8>)
    ensures
        r@ == s_sc(),
{
    let a: [u8; 2] = [83, 67];
    let mut r: Vec<u8> = Vec::new();
    r.extend_from_slice(a.as_slice());
    assert(r@ =~= s_sc());
    r
}

pub open spec fn s_sh() -> Seq<u8> {
    seq![83u8, 72]
}

pub fn b_sh() -> (r: Vec<u8>)
    ensures
        r@ == s_sh(),
{
    let a: [u8; 2] = [83, 72];
    let mut r: Vec<u8> = Vec::new();
    r.extend_from_slice(a.as_slice());
    assert(r@ =~= s_sh());
    r
}

pub open spec fn s_hpra() -> Seq<u8> {
    seq![72u8, 80, 82, 65]
}

pub fn b_hpra() -> (r: Vec<u8>)
    ensures
        r@ == s_hpra(),
{
    let a: [u8; 4] = [72, 80, 82, 65];
    let mut r: Vec<u8> = Vec::new();
    r.extend_from_slice(a.as_slice());
    assert(r@ =~= s_hpra());
    r
}

pub open spec fn s_hprt() -> Seq<u8> {
    seq![72u8, 80, 82, 84]
}

pub fn b_hprt() -> (r: Vec<u8>)
    ensures
        r@ == s_hprt(),
{
    let a: [u8; 4] = [72, 80, 82, 84];
    let mut r: Vec<u8> = Vec::new();
    r.extend_from_slice(a.as_slice());
    assert(r@ =~= s_hprt());
    r
}

pub open spec fn s_praz() -> Seq<u8> {
    seq![80u8, 82, 65, 90]
}

pub fn b_praz() -> (r: Vec<u8>)
    ensures
        r@ == s_praz(),
{
    let a: [u8; 4] = [80, 82, 65, 90];
    let mut r: Vec<u8> = Vec::new();
    r.extend_from_slice(a.as_slice());
    assert(r@ =~= s_praz());
    r
}

pub open spec fn s_prt() -> Seq<u8> {
    seq![80u8, 82, 84]
}

pub fn b_prt() -> (r: Vec<u8>)
    ensures
        r@ == s_prt(),
{
    let a: [u8; 3] = [80, 82, 84];
    let mut r: Vec<u8> = Vec::new();
    r.extend_from_slice(a.as_slice());
    assert(r@ =~= s_prt());
    r
}

pub open spec fn s_rc() -> Seq<u8> {
    seq![82u8, 67]
}

pub fn b_rc() -> (r: Vec<u8>)
    ensures
        r@ == s_rc(),
{
    let a: [u8; 2] = [82, 67];
    let mut r: Vec<u8> = Vec::new();
    r.extend_from_slice(a.as_slice());
    assert(r@ =~= s_rc());
    r
}

pub open spec fn s_rv() -> Seq<u8> {
    seq![82u8, 86]
}

pub fn b_rv() -> (r: Vec<u8>)
    ensures
        r@ == s_rv(),
{
    let a: [u8; 2] = [82, 86];
    let mut r: Vec<u8> = Vec::new();
    r.extend_from_slice(a.as_slice());
    assert(r@ =~= s_rv());
    r
}

pub open spec fn s_ag_low() -> Seq<u8> {
    seq![97u8, 103]
}

pub fn b_ag_low() -> (r: Vec<u8>)
    ensures
        r@ == s_ag_low(),
{
    let a: [u8; 2] = [97, 103];
    let mut r: Vec<u8> = Vec::new();
    r.extend_from_slice(a.as_slice());
    assert(r@ =~= s_ag_low());
    r
}

pub open spec fn s_lg_low() -> Seq<u8> {
    seq![108u8, 103]
}

pub fn b_lg_low() -> (r: Vec<u8>)
    ensures
        r@ == s_lg_low(),
{
    let a: [u8; 2] = [108, 103];
    let mut r: Vec<u8> = Vec::new();
    r.extend_from_slice(a.as_slice());
    assert(r@ =~= s_lg_low());
    r
}

pub open spec fn s_tc_low() -> Seq<u8> {
    seq![116u8, 99]
}

pub fn b_tc_low() -> (r: Vec<u8>)
    ensures
        r@ == s_tc_low(),
{
    let a: [u8; 2] = [116, 99];
    let mut r: Vec<u8> = Vec::new();
    r.extend_from_slice(a.as_slice());
    assert(r@ =~= s_tc_low());
    r
}

pub open spec fn s_tp_low() -> Seq<u8> {
    seq![116u8, 112]
}

pub fn b_tp_low() -> (r: Vec<u8>)
    ensures
        r@ == s_tp_low(),
{
    let a: [u8; 2] = [116, 112];
    let mut r: Vec<u8> = Vec::new();
    r.extend_from_slice(a.as_slice());
    assert(r@ =~= s_tp_low());
    r
}

pub open spec fn s_ty() -> Seq<u8> {
    seq![84u8, 89]
}

pub fn b_ty() -> (r: Vec<u8>)
    ensures
        r@ == s_ty(),
{
    let a: [u8; 2] = [84, 89];
    let mut r: Vec<u8> = Vec::new();
    r.extend_from_slice(a.as_slice());
    assert(r@ =~= s_ty());
    r
}

pub open spec fn s_u() -> Seq<u8> {
    seq![85u8]
}

pub fn b_u() -> (r: Vec<u8>)
    ensures
        r@ == s_u(),
{
    let a: [u8; 1] = [85];
    let mut r: Vec<u8> = Vec::new();
    r.extend_from_slice(a.as_slice());
    assert(r@ =~= s_u());
    r
}

pub open spec fn s_unit() -> Seq<u8> {
    seq![117u8, 110, 105, 116]
}

pub fn b_unit() -> (r: Vec<u8>)
    ensures
        r@ == s_unit(),
{
    let a: [u8; 4] = [117, 110, 105, 116];
    let mut r: Vec<u8> = Vec::new();
    r.extend_from_slice(a.as_slice());
    assert(r@ =~= s_unit());
    r
}

pub open spec fn s_use_mag() -> Seq<u8> {
    seq![117u8, 115, 101, 77, 97, 103, 110, 101, 116, 105, 99, 65, 122, 105, 109, 117, 116, 104]
}

pub fn b_use_mag() -> (r: Vec<u8>)
    ensures
        r@ == s_use_mag(),
{
    let a: [u8; 18] = [117, 115, 101, 77, 97, 103, 110, 101, 116, 105, 99, 65, 122, 105, 109, 117, 116, 104];
    let mut r: Vec<u8> = Vec::new();
    r.extend_from_slice(a.as_slice());
    assert(r@ =~= s_use_mag());
    r
}

pub open spec fn s_constraints() -> Seq<u8> {
    seq![67u8, 111, 110, 115, 116, 114, 97, 105, 110, 116, 115]
}

pub fn b_constraints() -> (r: Vec<u8>)
    ensures
        r@ == s_constraints(),
{
    let a: [u8; 11] = [67, 111, 110, 115, 116, 114, 97, 105, 110, 116, 115];
    let mut r: Vec<u8> = Vec::new();
    r.extend_from_slice(a.as_slice());
    assert(r@ =~= s_constraints());
    r
}

pub open spec fn s_carto_line() -> Seq<u8> {
    seq![67u8, 97, 114, 116, 111, 76, 105, 110, 101]
}

pub fn b_carto_line() -> (r: Vec<u8>)
    ensures
        r@ == s_carto_line(),
{
    let a: [u8; 9] = [67, 97, 114, 116, 111, 76, 105, 110, 101];
    let mut r: Vec<u8> = Vec::new();
    r.extend_from_slice(a.as_slice());
    assert(r@ =~= s_carto_line());
    r
}

pub open spec fn s_carto_page() -> Seq<u8> {
    seq![67u8, 97, 114, 116, 111, 80, 97, 103, 101]
}

pub fn b_carto_page() -> (r: Vec<u8>)
    ensures
        r@ == s_carto_page(),
{
    let a: [u8; 9] = [67, 97, 114, 116, 111, 80, 97, 103, 101];
    let mut r: Vec<u8> = Vec::new();
    r.extend_from_slice(a.as_slice());
    assert(r@ =~= s_carto_page());
    r
}

pub open spec fn s_carto_rectangle() -> Seq<u8> {
    seq![67u8, 97, 114, 116, 111, 82, 101, 99, 116, 97, 110, 103, 108, 101]
}

pub fn b_carto_rectangle() -> (r: Vec<u8>)
    ensures
        r@ == s_carto_rectangle(),
{
    let a: [u8; 14] = [67, 97, 114, 116, 111, 82, 101, 99, 116, 97, 110, 103, 108, 101];
    let mut r: Vec<u8> = Vec::new();
    r.extend_from_slice(a.as_slice());
    assert(r@ =~= s_carto_rectangle());
    r
}

pub open spec fn s_carto_selection() -> Seq<u8> {
    seq![67u8, 97, 114, 116, 111, 83, 101, 108, 101, 99, 116, 105, 111, 110]
}

pub fn b_carto_selection() -> (r: Vec<u8>)
    ensures
        r@ == s_carto_selection(),
{
    let a: [u8; 14] = [67, 97, 114, 116, 111, 83, 101, 108, 101, 99, 116, 105, 111, 110];
    let mut r: Vec<u8> = Vec::new();
    r.extend_from_slice(a.as_slice());
    assert(r@ =~= s_carto_selection());
    r
}

pub open spec fn s_carto_ellipse() -> Seq<u8> {
    seq![67u8, 97, 114, 116, 111, 69, 108, 108, 105, 112, 115, 101]
}

pub fn b_carto_ellipse() -> (r: Vec<u8>)
    ensures
        r@ == s_carto_ellipse(),
{
    let a: [u8; 12] = [67, 97, 114, 116, 111, 69, 108, 108, 105, 112, 115, 101];
    let mut r: Vec<u8> = Vec::new();
    r.extend_from_slice(a.as_slice());
    assert(r@ =~= s_carto_ellipse());
    r
}

pub open spec fn s_carto_spline() -> Seq<u8> {
    seq![67u8, 97, 114, 116, 111, 83, 112, 108, 105, 110, 101]
}

pub fn b_carto_spline() -> (r: Vec<u8>)
    ensures
        r@ == s_carto_spline(),
{
    let a: [u8; 11] = [67, 97, 114, 116, 111, 83, 112, 108, 105, 110, 101];
    let mut r: Vec<u8> = Vec::new();
    r.extend_from_slice(a.as_slice());
    assert(r@ =~= s_carto_spline());
    r
}

pub open spec fn s_layers() -> Seq<u8> {
    seq![76u8, 97, 121, 101, 114, 115]
}

pub fn b_layers() -> (r: Vec<u8>)
    ensures
        r@ == s_layers(),
{
    let a: [u8; 6] = [76, 97, 121, 101, 114, 115];
    let mut r: Vec<u8> = Vec::new();
    r.extend_from_slice(a.as_slice());
    assert(r@ =~= s_layers());
    r
}

pub open spec fn s_layer_list() -> Seq<u8> {
    seq![108u8, 97, 121, 101, 114, 76, 105, 115, 116]
}

pub fn b_layer_list() -> (r: Vec<u8>)
    ensures
        r@ == s_layer_list(),
{
    let a: [u8; 9] = [108, 97, 121, 101, 114, 76, 105, 115, 116];
    let mut r: Vec<u8> = Vec::new();
    r.extend_from_slice(a.as_slice());
    assert(r@ =~= s_layer_list());
    r
}

pub open spec fn s_constant() -> Seq<u8> {
    seq![99u8, 111, 110, 115, 116, 97, 110, 116]
}

pub fn b_constant() -> (r: Vec<u8>)
    ensures
        r@ == s_constant(),
{
    let a: [u8; 8] = [99, 111, 110, 115, 116, 97, 110, 116];
    let mut r: Vec<u8> = Vec::new();
    r.extend_from_slice(a.as_slice());
    assert(r@ =~= s_constant());
    r
}

pub open spec fn s_locked() -> Seq<u8> {
    seq![108u8, 111, 99, 107, 101, 100]
}

pub fn b_locked() -> (r: Vec<u8>)
    ensures
        r@ == s_locked(),
{
    let a: [u8; 6] = [108, 111, 99, 107, 101, 100];
    let mut r: Vec<u8> = Vec::new();
    r.extend_from_slice(a.as_slice());
    assert(r@ =~= s_locked());
    r
}

pub open spec fn s_name_tag() -> Seq<u8> {
    seq![110u8, 97, 109, 101]
}

pub fn b_name_tag() -> (r: Vec<u8>)
    ensures
        r@ == s_name_tag(),
{
    let a: [u8; 4] = [110, 97, 109, 101];
    let mut r: Vec<u8> = Vec::new();
    r.extend_from_slice(a.as_slice());
    assert(r@ =~= s_name_tag());
    r
}

pub open spec fn s_style() -> Seq<u8> {
    seq![115u8, 116, 121, 108, 101]
}

pub fn b_style() -> (r: Vec<u8>)
    ensures
        r@ == s_style(),
{
    let a: [u8; 5] = [115, 116, 121, 108, 101];
    let mut r: Vec<u8> = Vec::new();
    r.extend_from_slice(a.as_slice());
    assert(r@ =~= s_style());
    r
}

pub open spec fn s_dash_scale() -> Seq<u8> {
    seq![100u8, 97, 115, 104, 83, 99, 97, 108, 101]
}

pub fn b_dash_scale() -> (r: Vec<u8>)
    ensures
        r@ == s_dash_scale(),
{
    let a: [u8; 9] = [100, 97, 115, 104, 83, 99, 97, 108, 101];
    let mut r: Vec<u8> = Vec::new();
    r.extend_from_slice(a.as_slice());
    assert(r@ =~= s_dash_scale());
    r
}

pub open spec fn s_fill_color() -> Seq<u8> {
    seq![102u8, 105, 108, 108, 67, 111, 108, 111, 114, 83, 116, 114, 105, 110, 103]
}

pub fn b_fill_color() -> (r: Vec<u8>)
    ensures
        r@ == s_fill_color(),
{
    let a: [u8; 15] = [102, 105, 108, 108, 67, 111, 108, 111, 114, 83, 116, 114, 105, 110, 103];
    let mut r: Vec<u8> = Vec::new();
    r.extend_from_slice(a.as_slice());
    assert(r@ =~= s_fill_color());
    r
}

pub open spec fn s_line_type() -> Seq<u8> {
    seq![108u8, 105, 110, 101, 84, 121, 112, 101]
}

pub fn b_line_type() -> (r: Vec<u8>)
    ensures
        r@ == s_line_type(),
{
    let a: [u8; 8] = [108, 105, 110, 101, 84, 121, 112, 101];
    let mut r: Vec<u8> = Vec::new();
    r.extend_from_slice(a.as_slice());
    assert(r@ =~= s_line_type());
    r
}

pub open spec fn s_line_type_scale() -> Seq<u8> {
    seq![108u8, 105, 110, 101, 84, 121, 112, 101, 83, 99, 97, 108, 101]
}

pub fn b_line_type_scale() -> (r: Vec<u8>)
    ensures
        r@ == s_line_type_scale(),
{
    let a: [u8; 13] = [108, 105, 110, 101, 84, 121, 112, 101, 83, 99, 97, 108, 101];
    let mut r: Vec<u8> = Vec::new();
    r.extend_from_slice(a.as_slice());
    assert(r@ =~= s_line_type_scale());
    r
}

pub open spec fn s_opacity() -> Seq<u8> {
    seq![111u8, 112, 97, 99, 105, 116, 121]
}

pub fn b_opacity() -> (r: Vec<u8>)
    ensures
        r@ == s_opacity(),
{
    let a: [u8; 7] = [111, 112, 97, 99, 105, 116, 121];
    let mut r: Vec<u8> = Vec::new();
    r.extend_from_slice(a.as_slice());
    assert(r@ =~= s_opacity());
    r
}

pub open spec fn s_size_mode() -> Seq<u8> {
    seq![115u8, 105, 122, 101, 77, 111, 100, 101]
}

pub fn b_size_mode() -> (r: Vec<u8>)
    ensures
        r@ == s_size_mode(),
{
    let a: [u8; 8] = [115, 105, 122, 101, 77, 111, 100, 101];
    let mut r: Vec<u8> = Vec::new();
    r.extend_from_slice(a.as_slice());
    assert(r@ =~= s_size_mode());
    r
}

pub open spec fn s_stroke_color() -> Seq<u8> {
    seq![115u8, 116, 114, 111, 107, 101, 67, 111, 108, 111, 114, 83, 116, 114, 105, 110, 103]
}

pub fn b_stroke_color() -> (r: Vec<u8>)
    ensures
        r@ == s_stroke_color(),
{
    let a: [u8; 17] = [115, 116, 114, 111, 107, 101, 67, 111, 108, 111, 114, 83, 116, 114, 105, 110, 103];
    let mut r: Vec<u8> = Vec::new();
    r.extend_from_slice(a.as_slice());
    assert(r@ =~= s_stroke_color());
    r
}

pub open spec fn s_stroke_thickness() -> Seq<u8> {
    seq![115u8, 116, 114, 111, 107, 101, 84, 104, 105, 99, 107, 110, 101, 115, 115]
}

pub fn b_stroke_thickness() -> (r: Vec<u8>)
    ensures
        r@ == s_stroke_thickness(),
{
    let a: [u8; 15] = [115, 116, 114, 111, 107, 101, 84, 104, 105, 99, 107, 110, 101, 115, 115];
    let mut r: Vec<u8> = Vec::new();
    r.extend_from_slice(a.as_slice());
    assert(r@ =~= s_stroke_thickness());
    r
}

pub open spec fn s_visible() -> Seq<u8> {
    seq![118u8, 105, 115, 105, 98, 108, 101]
}

pub fn b_visible() -> (r: Vec<u8>)
    ensures
        r@ == s_visible(),
{
    let a: [u8; 7] = [118, 105, 115, 105, 98, 108, 101];
    let mut r: Vec<u8> = Vec::new();
    r.extend_from_slice(a.as_slice());
    assert(r@ =~= s_visible());
    r
}

pub open spec fn s_carto_overlay() -> Seq<u8> {
    seq![67u8, 97, 114, 116, 111, 79, 118, 101, 114, 108, 97, 121]
}

pub fn b_carto_overlay() -> (r: Vec<u8>)
    ensures
        r@ == s_carto_overlay(),
{
    let a: [u8; 12] = [67, 97, 114, 116, 111, 79, 118, 101, 114, 108, 97, 121];
    let mut r: Vec<u8> = Vec::new();
    r.extend_from_slice(a.as_slice());
    assert(r@ =~= s_carto_overlay());
    r
}

pub open spec fn s_carto_linked() -> Seq<u8> {
    seq![67u8, 97, 114, 116, 111, 76, 105, 110, 107, 101, 100, 83, 117, 114, 102, 97, 99, 101]
}

pub fn b_carto_linked() -> (r: Vec<u8>)
    ensures
        r@ == s_carto_linked(),
{
    let a: [u8; 18] = [67, 97, 114, 116, 111, 76, 105, 110, 107, 101, 100, 83, 117, 114, 102, 97, 99, 101];
    let mut r: Vec<u8> = Vec::new();
    r.extend_from_slice(a.as_slice());
    assert(r@ =~= s_carto_linked());
    r
}

pub open spec fn s_txt_true() -> Seq<u8> {
    seq![116u8, 114, 117, 101]
}

pub fn b_txt_true() -> (r: Vec<u8>)
    ensures
        r@ == s_txt_true(),
{
    let a: [u8; 4] = [116, 114, 117, 101];
    let mut r: Vec<u8> = Vec::new();
    r.extend_from_slice(a.as_slice());
    assert(r@ =~= s_txt_true());
    r
}

pub open spec fn s_txt_false() -> Seq<u8> {
    seq![102u8, 97, 108, 115, 101]
}

pub fn b_txt_false() -> (r: Vec<u8>)
    ensures
        r@ == s_txt_false(),
{
    let a: [u8; 5] = [102, 97, 108, 115, 101];
    let mut r: Vec<u8> = Vec::new();
    r.extend_from_slice(a.as_slice());
    assert(r@ =~= s_txt_false());
    r
}

pub open spec fn s_txt_zero() -> Seq<u8> {
    seq![48u8, 46, 48]
}

pub fn b_txt_zero() -> (r: Vec<u8>)
    ensures
        r@ == s_txt_zero(),
{
    let a: [u8; 3] = [48, 46, 48];
    let mut r: Vec<u8> = Vec::new();
    r.extend_from_slice(a.as_slice());
    assert(r@ =~= s_txt_zero());
    r
}

pub open spec fn s_txt_one() -> Seq<u8> {
    seq![49u8, 46, 48]
}

pub fn b_txt_one() -> (r: Vec<u8>)
    ensures
        r@ == s_txt_one(),
{
    let a: [u8; 3] = [49, 46, 48];
    let mut r: Vec<u8> = Vec::new();
    r.extend_from_slice(a.as_slice());
    assert(r@ =~= s_txt_one());
    r
}

pub open spec fn s_txt_a180() -> Seq<u8> {
    seq![49u8, 56, 48, 46, 48]
}

pub fn b_txt_a180() -> (r: Vec<u8>)
    ensures
        r@ == s_txt_a180(),
{
    let a: [u8; 5] = [49, 56, 48, 46, 48];
    let mut r: Vec<u8> = Vec::new();
    r.extend_from_slice(a.as_slice());
    assert(r@ =~= s_txt_a180());
    r
}

pub open spec fn s_txt_a90() -> Seq<u8> {
    seq![57u8, 48, 46, 48]
}

pub fn b_txt_a90() -> (r: Vec<u8>)
    ensures
        r@ == s_txt_a90(),
{
    let a: [u8; 4] = [57, 48, 46, 48];
    let mut r: Vec<u8> = Vec::new();
    r.extend_from_slice(a.as_slice());
    assert(r@ =~= s_txt_a90());
    r
}

pub open spec fn s_txt_a270() -> Seq<u8> {
    seq![50u8, 55, 48, 46, 48]
}

pub fn b_txt_a270() -> (r: Vec<u8>)
    ensures
        r@ == s_txt_a270(),
{
    let a: [u8; 5] = [50, 55, 48, 46, 48];
    let mut r: Vec<u8> = Vec::new();
    r.extend_from_slice(a.as_slice());
    assert(r@ =~= s_txt_a270());
    r
}

pub open spec fn s_txt_zero_int() -> Seq<u8> {
    seq![48u8]
}

pub fn b_txt_zero_int() -> (r: Vec<u8>)
    ensures
        r@ == s_txt_zero_int(),
{
    let a: [u8; 1] = [48];
    let mut r: Vec<u8> = Vec::new();
    r.extend_from_slice(a.as_slice());
    assert(r@ =~= s_txt_zero_int());
    r
}

pub open spec fn s_txt_m() -> Seq<u8> {
    seq![109u8]
}

pub fn b_txt_m() -> (r: Vec<u8>)
    ensures
        r@ == s_txt_m(),
{
    let a: [u8; 1] = [109];
    let mut r: Vec<u8> = Vec::new();
    r.extend_from_slice(a.as_slice());
    assert(r@ =~= s_txt_m());
    r
}

pub open spec fn s_txt_date() -> Seq<u8> {
    seq![50u8, 48, 50, 49, 45, 48, 49, 45, 48, 49]
}

pub fn b_txt_date() -> (r: Vec<u8>)
    ensures
        r@ == s_txt_date(),
{
    let a: [u8; 10] = [50, 48, 50, 49, 45, 48, 49, 45, 48, 49];
    let mut r: Vec<u8> = Vec::new();
    r.extend_from_slice(a.as_slice());
    assert(r@ =~= s_txt_date());
    r
}

pub open spec fn s_txt_fill() -> Seq<u8> {
    seq![48u8, 120, 48, 48, 48, 48, 48, 48, 48, 48]
}

pub fn b_txt_fill() -> (r: Vec<u8>)
    ensures
        r@ == s_txt_fill(),
{
    let a: [u8; 10] = [48, 120, 48, 48, 48, 48, 48, 48, 48, 48];
    let mut r: Vec<u8> = Vec::new();
    r.extend_from_slice(a.as_slice());
    assert(r@ =~= s_txt_fill());
    r
}

pub open spec fn s_txt_standard() -> Seq<u8> {
    seq![83u8, 84, 65, 78, 68, 65, 82, 68]
}

pub fn b_txt_standard() -> (r: Vec<u8>)
    ensures
        r@ == s_txt_standard(),
{
    let a: [u8; 8] = [83, 84, 65, 78, 68, 65, 82, 68];
    let mut r: Vec<u8> = Vec::new();
    r.extend_from_slice(a.as_slice());
    assert(r@ =~= s_txt_standard());
    r
}

pub open spec fn s_txt_switchable() -> Seq<u8> {
    seq![83u8, 87, 73, 84, 67, 72, 65, 66, 76, 69]
}

pub fn b_txt_switchable() -> (r: Vec<u8>)
    ensures
        r@ == s_txt_switchable(),
{
    let a: [u8; 10] = [83, 87, 73, 84, 67, 72, 65, 66, 76, 69];
    let mut r: Vec<u8> = Vec::new();
    r.extend_from_slice(a.as_slice());
    assert(r@ =~= s_txt_switchable());
    r
}

pub open spec fn s_txt_stroke() -> Seq<u8> {
    seq![48u8, 120, 48, 48, 48, 48, 48, 48, 102, 102]
}

pub fn b_txt_stroke() -> (r: Vec<u8>)
    ensures
        r@ == s_txt_stroke(),
{
    let a: [u8; 10] = [48, 120, 48, 48, 48, 48, 48, 48, 102, 102];
    let mut r: Vec<u8> = Vec::new();
    r.extend_from_slice(a.as_slice());
    assert(r@ =~= s_txt_stroke());
    r
}

pub open spec fn s_txt_hundred() -> Seq<u8> {
    seq![49u8, 48, 48, 46, 48]
}

pub fn b_txt_hundred() -> (r: Vec<u8>)
    ensures
        r@ == s_txt_hundred(),
{
    let a: [u8; 5] = [49, 48, 48, 46, 48];
    let mut r: Vec<u8> = Vec::new();
    r.extend_from_slice(a.as_slice());
    assert(r@ =~= s_txt_hundred());
    r
}

pub open spec fn s_txt_overlay() -> Seq<u8> {
    seq![79u8, 118, 101, 114, 108, 97, 121]
}

pub fn b_txt_overlay() -> (r: Vec<u8>)
    ensures
        r@ == s_txt_overlay(),
{
    let a: [u8; 7] = [79, 118, 101, 114, 108, 97, 121];
    let mut r: Vec<u8> = Vec::new();
    r.extend_from_slice(a.as_slice());
    assert(r@ =~= s_txt_overlay());
    r
}

pub open spec fn s_txt_default() -> Seq<u8> {
    seq![68u8, 101, 102, 97, 117, 108, 116]
}

pub fn b_txt_default() -> (r: Vec<u8>)
    ensures
        r@ == s_txt_default(),
{
    let a: [u8; 7] = [68, 101, 102, 97, 117, 108, 116];
    let mut r: Vec<u8> = Vec::new();
    r.extend_from_slice(a.as_slice());
    assert(r@ =~= s_txt_default());
    r
}

pub open spec fn s_txt_start() -> Seq<u8> {
    seq![83u8, 84, 65, 82, 84]
}

pub fn b_txt_start() -> (r: Vec<u8>)
    ensures
        r@ == s_txt_start(),
{
    let a: [u8; 5] = [83, 84, 65, 82, 84];
    let mut r: Vec<u8> = Vec::new();
    r.extend_from_slice(a.as_slice());
    assert(r@ =~= s_txt_start());
    r
}

pub open spec fn s_txt_real() -> Seq<u8> {
    seq![82u8, 69, 65, 76]
}

pub fn b_txt_real() -> (r: Vec<u8>)
    ensures
        r@ == s_txt_real(),
{
    let a: [u8; 4] = [82, 69, 65, 76];
    let mut r: Vec<u8> = Vec::new();
    r.extend_from_slice(a.as_slice());
    assert(r@ =~= s_txt_real());
    r
}

pub open spec fn s_txt_virtual() -> Seq<u8> {
    seq![86u8, 73, 82, 84, 85, 65, 76]
}

pub fn b_txt_virtual() -> (r: Vec<u8>)
    ensures
        r@ == s_txt_virtual(),
{
    let a: [u8; 7] = [86, 73, 82, 84, 85, 65, 76];
    let mut r: Vec<u8> = Vec::new();
    r.extend_from_slice(a.as_slice());
    assert(r@ =~= s_txt_virtual());
    r
}

pub open spec fn s_txt_closure() -> Seq<u8> {
    seq![67u8, 76, 79, 83, 85, 82, 69]
}

pub fn b_txt_closure() -> (r: Vec<u8>)
    ensures
        r@ == s_txt_closure(),
{
    let a: [u8; 7] = [67, 76, 79, 83, 85, 82, 69];
    let mut r: Vec<u8> = Vec::new();
    r.extend_from_slice(a.as_slice());
    assert(r@ =~= s_txt_closure());
    r
}

pub open spec fn s_decl() -> Seq<u8> {
    seq![60u8, 63, 120, 109, 108, 32, 118, 101, 114, 115, 105, 111, 110, 61, 34, 49, 46, 48, 34, 32, 101, 110, 99, 111, 100, 105, 110, 103, 61, 34, 85, 84, 70, 45, 56, 34, 32, 115, 116, 97, 110, 100, 97, 108, 111, 110, 101, 61, 34, 121, 101, 115, 34, 63, 62]
}

pub fn b_decl() -> (r: Vec<u8>)
    ensures
        r@ == s_decl(),
{
    let a: [u8; 55] = [60, 63, 120, 109, 108, 32, 118, 101, 114, 115, 105, 111, 110, 61, 34, 49, 46, 48, 34, 32, 101, 110, 99, 111, 100, 105, 110, 103, 61, 34, 85, 84, 70, 45, 56, 34, 32, 115, 116, 97, 110, 100, 97, 108, 111, 110, 101, 61, 34, 121, 101, 115, 34, 63, 62];
    let mut r: Vec<u8> = Vec::new();
    r.extend_from_slice(a.as_slice());
    assert(r@ =~= s_decl());
    r
}

pub open spec fn s_ent_amp() -> Seq<u8> {
    seq![97u8, 109, 112, 59]
}

pub fn b_ent_amp() -> (r: Vec<u8>)
    ensures
        r@ == s_ent_amp(),
{
    let a: [u8; 4] = [97, 109, 112, 59];
    let mut r: Vec<u8> = Vec::new();
    r.extend_from_slice(a.as_slice());
    assert(r@ =~= s_ent_amp());
    r
}

pub open spec fn s_ent_lt() -> Seq<u8> {
    seq![108u8, 116, 59]
}

pub fn b_ent_lt() -> (r: Vec<u8>)
    ensures
        r@ == s_ent_lt(),
{
    let a: [u8; 3] = [108, 116, 59];
    let mut r: Vec<u8> = Vec::new();
    r.extend_from_slice(a.as_slice());
    assert(r@ =~= s_ent_lt());
    r
}

pub open spec fn s_ent_gt() -> Seq<u8> {
    seq![103u8, 116, 59]
}

pub fn b_ent_gt() -> (r: Vec<u8>)
    ensures
        r@ == s_ent_gt(),
{
    let a: [u8; 3] = [103, 116, 59];
    let mut r: Vec<u8> = Vec::new();
    r.extend_from_slice(a.as_slice());
    assert(r@ =~= s_ent_gt());
    r
}

pub open spec fn s_ent_quot() -> Seq<u8> {
    seq![113u8, 117, 111, 116, 59]
}

pub fn b_ent_quot() -> (r: Vec<u8>)
    ensures
        r@ == s_ent_quot(),
{
    let a: [u8; 5] = [113, 117, 111, 116, 59];
    let mut r: Vec<u8> = Vec::new();
    r.extend_from_slice(a.as_slice());
    assert(r@ =~= s_ent_quot());
    r
}

pub open spec fn s_ent_apos() -> Seq<u8> {
    seq![97u8, 112, 111, 115, 59]
}

pub fn b_ent_apos() -> (r: Vec<u8>)
    ensures
        r@ == s_ent_apos(),
{
    let a: [u8; 5] = [97, 112, 111, 115, 59];
    let mut r: Vec<u8> = Vec::new();
    r.extend_from_slice(a.as_slice());
    assert(r@ =~= s_ent_apos());
    r
}

pub open spec fn s_esc_amp() -> Seq<u8> {
    seq![38u8, 97, 109, 112, 59]
}

pub fn b_esc_amp() -> (r: Vec<u8>)
    ensures
        r@ == s_esc_amp(),
{
    let a: [u8; 5] = [38, 97, 109, 112, 59];
    let mut r: Vec<u8> = Vec::new();
    r.extend_from_slice(a.as_slice());
    assert(r@ =~= s_esc_amp());
    r
}

pub open spec fn s_esc_lt() -> Seq<u8> {
    seq![38u8, 108, 116, 59]
}

pub fn b_esc_lt() -> (r: Vec<u8>)
    ensures
        r@ == s_esc_lt(),
{
    let a: [u8; 4] = [38, 108, 116, 59];
    let mut r: Vec<u8> = Vec::new();
    r.extend_from_slice(a.as_slice());
    assert(r@ =~= s_esc_lt());
    r
}

pub open spec fn s_esc_gt() -> Seq<u8> {
    seq![38u8, 103, 116, 59]
}

pub fn b_esc_gt() -> (r: Vec<u8>)
    ensures
        r@ == s_esc_gt(),
{
    let a: [u8; 4] = [38, 103, 116, 59];
    let mut r: Vec<u8> = Vec::new();
    r.extend_from_slice(a.as_slice());
    assert(r@ =~= s_esc_gt());
    r
}


/// The four station kind texts are pairwise distinct.
pub proof fn lemma_distinct_kind_texts()
    ensures
        s_txt_start() != s_txt_real(),
        s_txt_start() != s_txt_virtual(),
        s_txt_start() != s_txt_closure(),
        s_txt_real() != s_txt_virtual(),
        s_txt_real() != s_txt_closure(),
        s_txt_virtual() != s_txt_closure(),
{
    assert(s_txt_start().len() == 5);
    assert(s_txt_real().len() == 4);
    assert(s_txt_virtual().len() == 7);
    assert(s_txt_closure().len() == 7);
    assert(s_txt_virtual()[0] == 86);
    assert(s_txt_closure()[0] == 67);
}

/// The length and leading bytes of every element name, so that any two
/// names can be told apart where the decoder compares them.
pub proof fn lemma_tag_facts()
    ensures
        s_cave_file().len() == 8,
        s_cave_file()[0] == 67,
        s_cave_file()[1] == 97,
        s_cave_file()[2] == 118,
        s_cave_file()[3] == 101,
        s_cave_file()[4] == 70,
        s_cave_file()[5] == 105,
        s_cave_name().len() == 8,
        s_cave_name()[0] == 99,
        s_cave_name()[1] == 97,
        s_cave_name()[2] == 118,
        s_cave_name()[3] == 101,
        s_cave_name()[4] == 78,
        s_cave_name()[5] == 97,
        s_elevation().len() == 27,
        s_elevation()[0] == 102,
        s_elevation()[1] == 105,
        s_elevation()[2] == 114,
        s_elevation()[3] == 115,
        s_elevation()[4] == 116,
        s_elevation()[5] == 83,
        s_geo_coding().len() == 9,
        s_geo_coding()[0] == 103,
        s_geo_coding()[1] == 101,
        s_geo_coding()[2] == 111,
        s_geo_coding()[3] == 67,
        s_geo_coding()[4] == 111,
        s_geo_coding()[5] == 100,
        s_list_annotation().len() == 14,
        s_list_annotation()[0] == 76,
        s_list_annotation()[1] == 105,
        s_list_annotation()[2] == 115,
        s_list_annotation()[3] == 116,
        s_list_annotation()[4] == 65,
        s_list_annotation()[5] == 110,
        s_data().len() == 4,
        s_data()[0] == 68,
        s_data()[1] == 97,
        s_data()[2] == 116,
        s_data()[3] == 97,
        s_srvd().len() == 4,
        s_srvd()[0] == 83,
        s_srvd()[1] == 82,
        s_srvd()[2] == 86,
        s_srvd()[3] == 68,
        s_az().len() == 2,
        s_az()[0] == 65,
        s_az()[1] == 90,
        s_cid().len() == 3,
        s_cid()[0] == 67,
        s_cid()[1] == 73,
        s_cid()[2] == 68,
        s_cl().len() == 2,
        s_cl()[0] == 67,
        s_cl()[1] == 76,
        s_cm().len() == 2,
        s_cm()[0] == 67,
        s_cm()[1] == 77,
        s_dt().len() == 2,
        s_dt()[0] == 68,
        s_dt()[1] == 84,
        s_dp().len() == 2,
        s_dp()[0] == 68,
        s_dp()[1] == 80,
        s_dpi().len() == 3,
        s_dpi()[0] == 68,
        s_dpi()[1] == 80,
        s_dpi()[2] == 73,
        s_d().len() == 1,
        s_d()[0] == 68,
        s_exc().len() == 3,
        s_exc()[0] == 69,
        s_exc()[1] == 88,
        s_exc()[2] == 67,
        s_ex().len() == 2,
        s_ex()[0] == 69,
        s_ex()[1] == 88,
        s_frid().len() == 4,
        s_frid()[0] == 70,
        s_frid()[1] == 82,
        s_frid()[2] == 73,
        s_frid()[3] == 68,
        s_id().len() == 2,
        s_id()[0] == 73,
        s_id()[1] == 68,
        s_inc().len() == 3,
        s_inc()[0] == 73,
        s_inc()[1] == 78,
        s_inc()[2] == 67,
        s_lt().len() == 2,
        s_lt()[0] == 76,
        s_lt()[1] == 84,
        s_l().len() == 1,
        s_l()[0] == 76,
        s_lg().len() == 2,
        s_lg()[0] == 76,
        s_lg()[1] == 71,
        s_lk().len() == 2,
        s_lk()[0] == 76,
        s_lk()[1] == 75,
        s_lgt().len() == 3,
        s_lgt()[0] == 76,
        s_lgt()[1] == 71,
        s_lgt()[2] == 84,
        s_nm().len() == 2,
        s_nm()[0] == 78,
        s_nm()[1] == 77,
        s_prty().len() == 4,
        s_prty()[0] == 80,
        s_prty()[1] == 82,
        s_prty()[2] == 84,
        s_prty()[3] == 89,
        s_r().len() == 1,
        s_r()[0] == 82,
        s_sc().len() == 2,
        s_sc()[0] == 83,
        s_sc()[1] == 67,
        s_sh().len() == 2,
        s_sh()[0] == 83,
        s_sh()[1] == 72,
        s_hpra().len() == 4,
        s_hpra()[0] == 72,
        s_hpra()[1] == 80,
        s_hpra()[2] == 82,
        s_hpra()[3] == 65,
        s_hprt().len() == 4,
        s_hprt()[0] == 72,
        s_hprt()[1] == 80,
        s_hprt()[2] == 82,
        s_hprt()[3] == 84,
        s_praz().len() == 4,
        s_praz()[0] == 80,
        s_praz()[1] == 82,
        s_praz()[2] == 65,
        s_praz()[3] == 90,
        s_prt().len() == 3,
        s_prt()[0] == 80,
        s_prt()[1] == 82,
        s_prt()[2] == 84,
        s_rc().len() == 2,
        s_rc()[0] == 82,
        s_rc()[1] == 67,
        s_rv().len() == 2,
        s_rv()[0] == 82,
        s_rv()[1] == 86,
        s_ag_low().len() == 2,
        s_ag_low()[0] == 97,
        s_ag_low()[1] == 103,
        s_lg_low().len() == 2,
        s_lg_low()[0] == 108,
        s_lg_low()[1] == 103,
        s_tc_low().len() == 2,
        s_tc_low()[0] == 116,
        s_tc_low()[1] == 99,
        s_tp_low().len() == 2,
        s_tp_low()[0] == 116,
        s_tp_low()[1] == 112,
        s_ty().len() == 2,
        s_ty()[0] == 84,
        s_ty()[1] == 89,
        s_u().len() == 1,
        s_u()[0] == 85,
        s_unit().len() == 4,
        s_unit()[0] == 117,
        s_unit()[1] == 110,
        s_unit()[2] == 105,
        s_unit()[3] == 116,
        s_use_mag().len() == 18,
        s_use_mag()[0] == 117,
        s_use_mag()[1] == 115,
        s_use_mag()[2] == 101,
        s_use_mag()[3] == 77,
        s_use_mag()[4] == 97,
        s_use_mag()[5] == 103,
        s_constraints().len() == 11,
        s_constraints()[0] == 67,
        s_constraints()[1] == 111,
        s_constraints()[2] == 110,
        s_constraints()[3] == 115,
        s_constraints()[4] == 116,
        s_constraints()[5] == 114,
        s_carto_line().len() == 9,
        s_carto_line()[0] == 67,
        s_carto_line()[1] == 97,
        s_carto_line()[2] == 114,
        s_carto_line()[3] == 116,
        s_carto_line()[4] == 111,
        s_carto_line()[5] == 76,
        s_carto_page().len() == 9,
        s_carto_page()[0] == 67,
        s_carto_page()[1] == 97,
        s_carto_page()[2] == 114,
        s_carto_page()[3] == 116,
        s_carto_page()[4] == 111,
        s_carto_page()[5] == 80,
        s_carto_rectangle().len() == 14,
        s_carto_rectangle()[0] == 67,
        s_carto_rectangle()[1] == 97,
        s_carto_rectangle()[2] == 114,
        s_carto_rectangle()[3] == 116,
        s_carto_rectangle()[4] == 111,
        s_carto_rectangle()[5] == 82,
        s_carto_selection().len() == 14,
        s_carto_selection()[0] == 67,
        s_carto_selection()[1] == 97,
        s_carto_selection()[2] == 114,
        s_carto_selection()[3] == 116,
        s_carto_selection()[4] == 111,
        s_carto_selection()[5] == 83,
        s_carto_ellipse().len() == 12,
        s_carto_ellipse()[0] == 67,
        s_carto_ellipse()[1] == 97,
        s_carto_ellipse()[2] == 114,
        s_carto_ellipse()[3] == 116,
        s_carto_ellipse()[4] == 111,
        s_carto_ellipse()[5] == 69,
        s_carto_spline().len() == 11,
        s_carto_spline()[0] == 67,
        s_carto_spline()[1] == 97,
        s_carto_spline()[2] == 114,
        s_carto_spline()[3] == 116,
        s_carto_spline()[4] == 111,
        s_carto_spline()[5] == 83,
        s_layers().len() == 6,
        s_layers()[0] == 76,
        s_layers()[1] == 97,
        s_layers()[2] == 121,
        s_layers()[3] == 101,
        s_layers()[4] == 114,
        s_layers()[5] == 115,
        s_layer_list().len() == 9,
        s_layer_list()[0] == 108,
        s_layer_list()[1] == 97,
        s_layer_list()[2] == 121,
        s_layer_list()[3] == 101,
        s_layer_list()[4] == 114,
        s_layer_list()[5] == 76,
        s_constant().len() == 8,
        s_constant()[0] == 99,
        s_constant()[1] == 111,
        s_constant()[2] == 110,
        s_constant()[3] == 115,
        s_constant()[4] == 116,
        s_constant()[5] == 97,
        s_locked().len() == 6,
        s_locked()[0] == 108,
        s_locked()[1] == 111,
        s_locked()[2] == 99,
        s_locked()[3] == 107,
        s_locked()[4] == 101,
        s_locked()[5] == 100,
        s_name_tag().len() == 4,
        s_name_tag()[0] == 110,
        s_name_tag()[1] == 97,
        s_name_tag()[2] == 109,
        s_name_tag()[3] == 101,
        s_style().len() == 5,
        s_style()[0] == 115,
        s_style()[1] == 116,
        s_style()[2] == 121,
        s_style()[3] == 108,
        s_style()[4] == 101,
        s_dash_scale().len() == 9,
        s_dash_scale()[0] == 100,
        s_dash_scale()[1] == 97,
        s_dash_scale()[2] == 115,
        s_dash_scale()[3] == 104,
        s_dash_scale()[4] == 83,
        s_dash_scale()[5] == 99,
        s_fill_color().len() == 15,
        s_fill_color()[0] == 102,
        s_fill_color()[1] == 105,
        s_fill_color()[2] == 108,
        s_fill_color()[3] == 108,
        s_fill_color()[4] == 67,
        s_fill_color()[5] == 111,
        s_line_type().len() == 8,
        s_line_type()[0] == 108,
        s_line_type()[1] == 105,
        s_line_type()[2] == 110,
        s_line_type()[3] == 101,
        s_line_type()[4] == 84,
        s_line_type()[5] == 121,
        s_line_type_scale().len() == 13,
        s_line_type_scale()[0] == 108,
        s_line_type_scale()[1] == 105,
        s_line_type_scale()[2] == 110,
        s_line_type_scale()[3] == 101,
        s_line_type_scale()[4] == 84,
        s_line_type_scale()[5] == 121,
        s_opacity().len() == 7,
        s_opacity()[0] == 111,
        s_opacity()[1] == 112,
        s_opacity()[2] == 97,
        s_opacity()[3] == 99,
        s_opacity()[4] == 105,
        s_opacity()[5] == 116,
        s_size_mode().len() == 8,
        s_size_mode()[0] == 115,
        s_size_mode()[1] == 105,
        s_size_mode()[2] == 122,
        s_size_mode()[3] == 101,
        s_size_mode()[4] == 77,
        s_size_mode()[5] == 111,
        s_stroke_color().len() == 17,
        s_stroke_color()[0] == 115,
        s_stroke_color()[1] == 116,
        s_stroke_color()[2] == 114,
        s_stroke_color()[3] == 111,
        s_stroke_color()[4] == 107,
        s_stroke_color()[5] == 101,
        s_stroke_thickness().len() == 15,
        s_stroke_thickness()[0] == 115,
        s_stroke_thickness()[1] == 116,
        s_stroke_thickness()[2] == 114,
        s_stroke_thickness()[3] == 111,
        s_stroke_thickness()[4] == 107,
        s_stroke_thickness()[5] == 101,
        s_visible().len() == 7,
        s_visible()[0] == 118,
        s_visible()[1] == 105,
        s_visible()[2] == 115,
        s_visible()[3] == 105,
        s_visible()[4] == 98,
        s_visible()[5] == 108,
        s_carto_overlay().len() == 12,
        s_carto_overlay()[0] == 67,
        s_carto_overlay()[1] == 97,
        s_carto_overlay()[2] == 114,
        s_carto_overlay()[3] == 116,
        s_carto_overlay()[4] == 111,
        s_carto_overlay()[5] == 79,
        s_carto_linked().len() == 18,
        s_carto_linked()[0] == 67,
        s_carto_linked()[1] == 97,
        s_carto_linked()[2] == 114,
        s_carto_linked()[3] == 116,
        s_carto_linked()[4] == 111,
        s_carto_linked()[5] == 76,
{
}

} // verus!
