use lcms2::context::Context;
use lcms2::context::Plugin;
use lcms2::context::PluginType;
use lcms2::error::ErrorCode;
use lcms2::error::LogErrorHandler;
use lcms2::signatures;
use lcms2::tags::TagDescriptor;
use lcms2::tags::TypeDecider;
use lcms2::tags::decide_curve_type;
use lcms2::tags::decide_lut_type_a_to_b;
use lcms2::tags::decide_text_desc_type;
use lcms2::tags::decide_text_type;
use lcms2::tags::decide_xyz_type;
use lcms2::tags::supported_tags;
use lcms2::Signature;
use lcms2::LCMS_VERSION;

fn tag_plugin(sig: &[u8; 4], expected_version: u32) -> Plugin {
    Plugin {
        magic: Signature::from_u32(signatures::PLUGIN_MAGIC),
        expected_version,
        plugin_type: Signature::new(b"tagH"),
        data: PluginType::Tag {
            sig: Signature::new(sig),
            desc: TagDescriptor {
                element_count: 1,
                supported_types: vec![Signature::from_u32(signatures::TYPE_TEXT)],
                decide_type: None,
            },
        },
    }
}

#[test]
fn curve_decision_is_deterministic_and_version_gated() {
    // A 3.9 profile always takes the plain curve type.
    assert_eq!(
        decide_curve_type(390, &[0, 0]),
        Signature::from_u32(signatures::TYPE_CURVE)
    );
    assert_eq!(
        decide_curve_type(390, &[1, 3]),
        Signature::from_u32(signatures::TYPE_CURVE)
    );
    // A 4.1 profile takes the parametric type only for one segment of a
    // known form.
    assert_eq!(
        decide_curve_type(410, &[1, 0]),
        Signature::from_u32(signatures::TYPE_PARAMETRIC_CURVE)
    );
    assert_eq!(
        decide_curve_type(410, &[2, 0]),
        Signature::from_u32(signatures::TYPE_CURVE)
    );
    assert_eq!(
        decide_curve_type(410, &[1, 6]),
        Signature::from_u32(signatures::TYPE_CURVE)
    );
    assert_eq!(
        decide_curve_type(410, &[1, -1]),
        Signature::from_u32(signatures::TYPE_CURVE)
    );
}

#[test]
fn text_and_description_decisions_follow_the_version_cutoff() {
    assert_eq!(
        decide_text_type(400, &[]),
        Signature::from_u32(signatures::TYPE_MULTI_LOCALIZED_UNICODE)
    );
    assert_eq!(
        decide_text_type(399, &[]),
        Signature::from_u32(signatures::TYPE_TEXT)
    );
    assert_eq!(
        decide_text_desc_type(430, &[]),
        Signature::from_u32(signatures::TYPE_MULTI_LOCALIZED_UNICODE)
    );
    assert_eq!(
        decide_text_desc_type(240, &[]),
        Signature::from_u32(signatures::TYPE_TEXT_DESCRIPTION)
    );
    assert_eq!(
        decide_xyz_type(240, &[]),
        Signature::from_u32(signatures::TYPE_XYZ)
    );
}

#[test]
fn lut_decision_reads_the_flag_byte_before_version_four() {
    assert_eq!(
        decide_lut_type_a_to_b(390, &[1]),
        Signature::from_u32(signatures::TYPE_LUT8)
    );
    assert_eq!(
        decide_lut_type_a_to_b(390, &[0]),
        Signature::from_u32(signatures::TYPE_LUT16)
    );
    assert_eq!(
        decide_lut_type_a_to_b(400, &[1]),
        Signature::from_u32(signatures::TYPE_LUT_A_TO_B)
    );
}

#[test]
fn descriptor_table_holds_every_purpose_well_formed() {
    let tags = supported_tags();
    assert_eq!(tags.len(), 64);
    for item in &tags {
        assert!(item.desc.element_count >= 1);
        assert!(!item.desc.supported_types.is_empty());
    }
    let red = &tags[6];
    assert_eq!(red.sig, Signature::from_u32(signatures::TAG_RED_COLORANT));
    assert_eq!(red.desc.decide_type, Some(TypeDecider::Xyz));
    assert_eq!(
        red.desc.supported_types[0],
        Signature::from_u32(signatures::TYPE_XYZ)
    );
}

#[test]
fn descriptor_decide_without_rule_takes_first_type() {
    let desc = TagDescriptor {
        element_count: 1,
        supported_types: vec![
            Signature::from_u32(signatures::TYPE_DATA),
            Signature::from_u32(signatures::TYPE_TEXT),
        ],
        decide_type: None,
    };
    assert_eq!(
        desc.decide(430, &[0, 0]),
        Signature::from_u32(signatures::TYPE_DATA)
    );
}

#[test]
fn context_registers_plugin_chain() {
    let chain = vec![tag_plugin(b"aaaa", 2000), tag_plugin(b"bbbb", 2000)];
    let (ctx, ok) = Context::new(Some(&chain), None);
    assert!(ok);
    let chunk = ctx.get_tag_plugin_chunk();
    assert_eq!(chunk.tag.len(), 2);
    let desc = chunk.get_tag_descriptor(Signature::new(b"bbbb")).unwrap();
    assert_eq!(desc.element_count, 1);
    assert!(chunk.get_tag_descriptor(Signature::new(b"cccc")).is_none());
}

#[test]
fn plugin_chain_aborts_at_version_skew_and_keeps_earlier_links() {
    let chain = vec![
        tag_plugin(b"aaaa", 2000),
        tag_plugin(b"bbbb", LCMS_VERSION + 1),
        tag_plugin(b"cccc", 2000),
    ];
    let (mut ctx, ok) = Context::new(None, None);
    assert!(ok);
    ctx.set_log_error_handler(Some(LogErrorHandler::Record));

    let ok = ctx.init_plugins(&chain);

    assert!(!ok);
    let chunk = ctx.get_tag_plugin_chunk();
    // The first link took effect; the second and third never did.
    assert_eq!(chunk.tag.len(), 1);
    assert!(chunk.get_tag_descriptor(Signature::new(b"aaaa")).is_some());
    assert!(chunk.get_tag_descriptor(Signature::new(b"bbbb")).is_none());
    assert!(chunk.get_tag_descriptor(Signature::new(b"cccc")).is_none());
    // The failure went through the log hook.
    let log = ctx.get_log_error_chunk();
    assert_eq!(log.entries.len(), 1);
    assert_eq!(log.entries[0].code, ErrorCode::UnknownExtension);
}

#[test]
fn plugin_chain_aborts_on_bad_magic() {
    let mut bad = tag_plugin(b"aaaa", 2000);
    bad.magic = Signature::new(b"nope");
    let (mut ctx, _) = Context::new(None, None);
    assert!(!ctx.init_plugins(&vec![bad]));
    assert_eq!(ctx.get_tag_plugin_chunk().tag.len(), 0);
}

#[test]
fn registries_of_two_contexts_are_isolated() {
    let chain = vec![tag_plugin(b"aaaa", 2000)];
    let (mut first, _) = Context::new(Some(&chain), None);
    let (second, _) = Context::new(Some(&chain), None);

    first.register_tag_plugin(Some(&tag_plugin(b"bbbb", 2000)));

    assert_eq!(first.get_tag_plugin_chunk().tag.len(), 2);
    assert_eq!(second.get_tag_plugin_chunk().tag.len(), 1);
    assert!(second
        .get_tag_plugin_chunk()
        .get_tag_descriptor(Signature::new(b"bbbb"))
        .is_none());
}

#[test]
fn unregister_clears_the_whole_registry_at_once() {
    let chain = vec![tag_plugin(b"aaaa", 2000), tag_plugin(b"bbbb", 2000)];
    let (mut ctx, _) = Context::new(Some(&chain), None);
    assert_eq!(ctx.get_tag_plugin_chunk().tag.len(), 2);
    ctx.unregister_plugins();
    assert_eq!(ctx.get_tag_plugin_chunk().tag.len(), 0);
}

#[test]
fn context_forks_evolve_independently() {
    let chain = vec![tag_plugin(b"aaaa", 2000)];
    let (ctx, _) = Context::new(Some(&chain), Some(vec![1, 2, 3]));
    let mut fork = ctx.duplicate();
    fork.register_tag_plugin(Some(&tag_plugin(b"bbbb", 2000)));
    assert_eq!(ctx.get_tag_plugin_chunk().tag.len(), 1);
    assert_eq!(fork.get_tag_plugin_chunk().tag.len(), 2);
    assert_eq!(ctx.get_user_data().unwrap(), &vec![1, 2, 3]);
    assert_eq!(fork.get_user_data().unwrap(), &vec![1, 2, 3]);
}

#[test]
fn overriding_registration_must_stand_first() {
    // Lookup returns the first match in registration order, so an entry
    // meant to override an earlier one must be consulted first.
    let (mut ctx, _) = Context::new(None, None);
    let mut a = tag_plugin(b"aaaa", 2000);
    ctx.register_tag_plugin(Some(&a));
    if let PluginType::Tag { ref mut desc, .. } = a.data {
        desc.element_count = 9;
    }
    ctx.register_tag_plugin(Some(&a));
    let desc = ctx
        .get_tag_plugin_chunk()
        .get_tag_descriptor(Signature::new(b"aaaa"))
        .unwrap();
    assert_eq!(desc.element_count, 1);
}

#[test]
fn construction_reports_a_chain_failure() {
    let chain = vec![
        tag_plugin(b"aaaa", 2000),
        tag_plugin(b"bbbb", LCMS_VERSION + 1),
        tag_plugin(b"cccc", 2000),
    ];
    let (ctx, ok) = Context::new(Some(&chain), None);
    assert!(!ok);
    // The first link still took effect before the walk aborted.
    assert_eq!(ctx.get_tag_plugin_chunk().tag.len(), 1);
}
