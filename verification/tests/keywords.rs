use isucholar_infra::keywords::split_on_space;

#[test]
fn split_matches_std_split() {
    for s in ["", " ", "a", "a b", "a  b", " a", "a ", "数学 の 証明", "x  y z  "] {
        let ours = split_on_space(s);
        let std: Vec<String> = s.split(' ').map(|w| w.to_string()).collect();
        assert_eq!(ours, std, "input {:?}", s);
        assert_eq!(ours.join(" "), s);
    }
}
