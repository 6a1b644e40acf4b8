use my_rust_pi_app::normalize_id;

#[test]
fn normalize_id_empty_input() {
    let result = normalize_id("");
    assert_eq!(result, "");
}

#[test]
fn normalize_id_lowercases_kept_characters() {
    assert_eq!(normalize_id("ABC"), "abc");
    assert_eq!(normalize_id("Sensor-Node_42"), "sensor-node_42");
}

#[test]
fn normalize_id_drops_everything_else() {
    assert_eq!(normalize_id("a b/c"), "abc");
    assert_eq!(normalize_id("Héllo_World-42!"), "hllo_world-42");
    assert_eq!(normalize_id("!@#$%"), "");
}

#[test]
fn normalize_id_keeps_already_normal_input() {
    assert_eq!(normalize_id("pi-node_7"), "pi-node_7");
}
