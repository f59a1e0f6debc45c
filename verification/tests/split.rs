use tmlu_codec::utils::SplitExplorers;

#[test]
fn test() {
    let a = "<Explorer>Carla Tortelli, Diane Chambers, Sam Malone</Explorer><Surveyor>Lilith Sternin, Sam Malone, Norm Peterson</Surveyor>".to_string();
    let splitter = SplitExplorers::default();
    let (e, s) = splitter.split_explorers(&a).unwrap();
    assert_eq!(e, vec!["Carla Tortelli", "Diane Chambers", "Sam Malone"]);
    assert_eq!(s, vec!["Lilith Sternin", "Sam Malone", "Norm Peterson"]);
}

#[test]
fn split_raw_groups() {
    let a = "<Explorer> Mr, Miyagi</Explorer><Surveyor>B\u{e6} & Bu <oo> </Surveyor>";
    let splitter = SplitExplorers::default();
    let (e, s) = splitter.split_explorers_string(a).unwrap();
    assert_eq!(e, " Mr, Miyagi");
    assert_eq!(s, "B\u{e6} & Bu <oo> ");
}

#[test]
fn no_match_yields_nothing() {
    let splitter = SplitExplorers::default();
    assert!(splitter.split_explorers("").is_none());
    assert!(splitter.split_explorers("just some text").is_none());
    assert!(splitter.split_explorers_string("<Explorer>x</Explorer>").is_none());
}
