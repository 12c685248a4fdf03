use rxserver::protocol::constants::FIRST_EXTENSION_OPCODE;
use rxserver::protocol::extension_registry::{known_extensions, ExtensionRegistry};

#[test]
fn assigns_every_known_extension_a_unique_opcode() {
    let registry = ExtensionRegistry::new();
    let known = known_extensions();
    let mut opcodes: Vec<u8> = known
        .iter()
        .map(|name| registry.major_opcode(name).unwrap())
        .collect();
    opcodes.sort_unstable();
    opcodes.dedup();
    assert_eq!(opcodes.len(), known.len());
    assert!(opcodes.iter().all(|&op| op >= FIRST_EXTENSION_OPCODE));
}

#[test]
fn unknown_extension_has_no_opcode() {
    let registry = ExtensionRegistry::new();
    assert_eq!(registry.major_opcode("NOT-A-REAL-EXTENSION"), None);
}

#[test]
fn extension_for_opcode_round_trips() {
    let registry = ExtensionRegistry::new();
    for name in known_extensions() {
        let opcode = registry.major_opcode(name).unwrap();
        assert_eq!(registry.extension_for_opcode(opcode), Some(name));
    }
}

#[test]
fn only_big_requests_randr_render_shape_xkeyboard_xinput_and_xge_are_implemented() {
    let registry = ExtensionRegistry::new();
    assert!(registry.is_implemented("BIG-REQUESTS"));
    assert!(registry.is_implemented("RANDR"));
    assert!(registry.is_implemented("RENDER"));
    assert!(registry.is_implemented("SHAPE"));
    assert!(registry.is_implemented("XKEYBOARD"));
    assert!(registry.is_implemented("XInputExtension"));
    assert!(registry.is_implemented("Generic Event Extension"));
    assert!(!registry.is_implemented("MIT-SHM"));
    assert!(!registry.is_implemented("XINERAMA"));
}

#[test]
fn opcodes_below_the_extension_range_name_no_extension() {
    let registry = ExtensionRegistry::new();
    assert_eq!(registry.extension_for_opcode(FIRST_EXTENSION_OPCODE - 1), None);
    assert_eq!(registry.extension_for_opcode(1), None);
    assert_eq!(
        registry.extension_for_opcode(FIRST_EXTENSION_OPCODE),
        Some(known_extensions()[0])
    );
}
