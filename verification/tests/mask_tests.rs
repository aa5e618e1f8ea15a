use fieldmask::maskable::AbsoluteMaskable;
use fieldmask::maskable::Maskable;
use fieldmask::maskable::OptionalMaskable;
use fieldmask::records::Basic;
use fieldmask::records::BasicMask;
use fieldmask::records::Inner;
use fieldmask::records::InnerMask;
use fieldmask::records::Outer;
use fieldmask::records::OuterMask;
use fieldmask::records::Sparse;
use fieldmask::records::SparseMask;

#[test]
fn scalar_replace_int() {
    let mut dst: u32 = 1;
    <u32 as AbsoluteMaskable>::apply_mask(&mut dst, 2, true);
    assert_eq!(dst, 2);
    <u32 as AbsoluteMaskable>::apply_mask(&mut dst, 9, false);
    assert_eq!(dst, 2);
}

#[test]
fn scalar_replace_text() {
    let mut dst = String::from("old");
    <String as AbsoluteMaskable>::apply_mask(&mut dst, String::from("new"), true);
    assert_eq!(dst, "new");
    <String as AbsoluteMaskable>::apply_mask(&mut dst, String::from("zzz"), false);
    assert_eq!(dst, "new");
}

#[test]
fn scalar_parse_empty_sets_flag() {
    let mut mask = false;
    let segs: &[&str] = &[];
    let r = <u32 as Maskable>::deserialize_mask(&mut mask, segs);
    assert!(r.is_ok());
    assert!(mask);
}

#[test]
fn scalar_parse_leftover_segment_fails() {
    let mut mask = false;
    let r = <u32 as Maskable>::deserialize_mask(&mut mask, &["x"]);
    let e = r.unwrap_err();
    assert_eq!(e.type_str, "u32");
    assert_eq!(e.field, "x");
    assert_eq!(e.depth, 0);
    assert!(!mask);
}

#[test]
fn noop_mask_record() {
    let mut dst = Basic { a: 1, b: String::from("x") };
    let src = Basic { a: 2, b: String::from("y") };
    let mask = Basic::default_mask();
    <Basic as AbsoluteMaskable>::apply_mask(&mut dst, src, mask);
    assert_eq!(dst, Basic { a: 1, b: String::from("x") });
}

#[test]
fn noop_mask_optional_all_presence_combinations() {
    let mask = InnerMask { a: false };
    let cases: [(Option<Inner>, Option<Inner>); 4] = [
        (Some(Inner { a: 1 }), Some(Inner { a: 2 })),
        (Some(Inner { a: 1 }), None),
        (None, Some(Inner { a: 2 })),
        (None, None),
    ];
    for (dst0, src) in cases {
        let mut dst = dst0;
        <Option<Inner> as AbsoluteMaskable>::apply_mask(&mut dst, src, mask);
        assert_eq!(dst, dst0);
    }
}

#[test]
fn merge_idempotent_record() {
    let mut dst = Basic { a: 1, b: String::from("x") };
    let src = Basic { a: 2, b: String::from("y") };
    let mask = BasicMask { a: true, b: false };
    <Basic as AbsoluteMaskable>::apply_mask(&mut dst, src.clone(), mask);
    let once = dst.clone();
    <Basic as AbsoluteMaskable>::apply_mask(&mut dst, src, mask);
    assert_eq!(dst, once);
    assert_eq!(once, Basic { a: 2, b: String::from("x") });
}

#[test]
fn merge_idempotent_optional_from_absent() {
    let mut dst: Option<Inner> = None;
    let src = Some(Inner { a: 7 });
    let mask = InnerMask { a: true };
    <Option<Inner> as AbsoluteMaskable>::apply_mask(&mut dst, src, mask);
    let once = dst;
    <Option<Inner> as AbsoluteMaskable>::apply_mask(&mut dst, src, mask);
    assert_eq!(dst, once);
    assert_eq!(once, Some(Inner { a: 7 }));
}

#[test]
fn merge_idempotent_optional_collapse() {
    let mut dst = Some(Sparse { a: 5 });
    let src = Some(Sparse { a: 0 });
    let mask = SparseMask { a: true };
    <Option<Sparse> as AbsoluteMaskable>::apply_mask(&mut dst, src, mask);
    assert_eq!(dst, None);
    <Option<Sparse> as AbsoluteMaskable>::apply_mask(&mut dst, src, mask);
    assert_eq!(dst, None);
}

#[test]
fn optional_collapse_when_inner_reports_absent() {
    let mut dst = Some(Sparse { a: 5 });
    let src = Some(Sparse { a: 0 });
    let mask = SparseMask { a: true };
    <Option<Sparse> as AbsoluteMaskable>::apply_mask(&mut dst, src, mask);
    assert_eq!(dst, None);
}

#[test]
fn optional_keeps_presence_when_inner_reports_present() {
    let mut dst = Some(Sparse { a: 5 });
    let src = Some(Sparse { a: 3 });
    let mask = SparseMask { a: true };
    <Option<Sparse> as AbsoluteMaskable>::apply_mask(&mut dst, src, mask);
    assert_eq!(dst, Some(Sparse { a: 3 }));
}

#[test]
fn no_presence_fabricated_from_absent_destination() {
    let mut dst: Option<Sparse> = None;
    let src = Some(Sparse { a: 0 });
    let mask = SparseMask { a: true };
    <Option<Sparse> as AbsoluteMaskable>::apply_mask(&mut dst, src, mask);
    assert_eq!(dst, None);
}

#[test]
fn presence_from_absent_with_content() {
    let mut dst: Option<Sparse> = None;
    let src = Some(Sparse { a: 3 });
    let mask = SparseMask { a: true };
    <Option<Sparse> as AbsoluteMaskable>::apply_mask(&mut dst, src, mask);
    assert_eq!(dst, Some(Sparse { a: 3 }));
}

#[test]
fn absent_source_clears_present_destination() {
    let mut dst = Some(Inner { a: 1 });
    let mask = InnerMask { a: true };
    <Option<Inner> as AbsoluteMaskable>::apply_mask(&mut dst, None, mask);
    assert_eq!(dst, None);
}

#[test]
fn path_round_trip() {
    let mut mask = Basic::default_mask();
    Basic::deserialize_mask(&mut mask, &["a"]).unwrap();
    Basic::deserialize_mask(&mut mask, &["b"]).unwrap();
    assert_eq!(mask, BasicMask { a: true, b: true });
    let mut dst = Basic { a: 1, b: String::from("x") };
    let src = Basic { a: 2, b: String::from("y") };
    <Basic as AbsoluteMaskable>::apply_mask(&mut dst, src, mask);
    assert_eq!(dst, Basic { a: 2, b: String::from("y") });
}

#[test]
fn unknown_field_is_reported_at_depth_zero() {
    let mut mask = Basic::default_mask();
    let e = Basic::deserialize_mask(&mut mask, &["z"]).unwrap_err();
    assert_eq!(e.type_str, "Basic");
    assert_eq!(e.field, "z");
    assert_eq!(e.depth, 0);
}

#[test]
fn unknown_nested_field_is_reported_one_level_down() {
    let mut mask = OuterMask { n: InnerMask { a: false } };
    let e = Outer::deserialize_mask(&mut mask, &["n", "q"]).unwrap_err();
    assert_eq!(e.type_str, "Inner");
    assert_eq!(e.field, "q");
    assert_eq!(e.depth, 1);
}

#[test]
fn leftover_past_nested_scalar_counts_both_layers() {
    let mut mask = OuterMask { n: InnerMask { a: false } };
    let e = Outer::deserialize_mask(&mut mask, &["n", "a", "x"]).unwrap_err();
    assert_eq!(e.type_str, "u32");
    assert_eq!(e.field, "x");
    assert_eq!(e.depth, 2);
}

#[test]
fn error_message_names_field_and_type() {
    let mut mask = Basic::default_mask();
    let e = Basic::deserialize_mask(&mut mask, &["z"]).unwrap_err();
    assert_eq!(e.message(), "there's no \"z\" in `Basic`");
}

#[test]
fn failed_parse_keeps_accumulated_mask() {
    let mut mask = Basic::default_mask();
    Basic::deserialize_mask(&mut mask, &["a"]).unwrap();
    assert!(Basic::deserialize_mask(&mut mask, &["z"]).is_err());
    assert_eq!(mask, BasicMask { a: true, b: false });
}

#[test]
fn empty_path_selects_whole_record() {
    let mut mask = Basic::default_mask();
    let segs: &[&str] = &[];
    Basic::deserialize_mask(&mut mask, segs).unwrap();
    assert_eq!(mask, BasicMask { a: true, b: true });
}

#[test]
fn optional_layer_shares_inner_parser() {
    let mut mask = <Option<Basic> as Maskable>::default_mask();
    <Option<Basic> as Maskable>::deserialize_mask(&mut mask, &["b"]).unwrap();
    assert_eq!(mask, BasicMask { a: false, b: true });
}

#[test]
fn mask_is_default_detects_empty_selection() {
    let mask = Basic::default_mask();
    assert!(Basic::mask_is_default(&mask));
    assert!(!Basic::mask_is_default(&BasicMask { a: true, b: false }));
}

#[test]
fn fresh_default_fields_fill_unselected_slots() {
    // Merging from an absent destination builds the inner value from scratch:
    // unselected fields keep their default, here the empty string.
    let mut dst: Option<Basic> = None;
    let src = Some(Basic { a: 4, b: String::from("y") });
    let mask = BasicMask { a: true, b: false };
    <Option<Basic> as AbsoluteMaskable>::apply_mask(&mut dst, src, mask);
    assert_eq!(dst, Some(Basic { a: 4, b: String::new() }));
}

#[test]
fn populated_value_never_discards_itself() {
    // The always-present adapter: an inner optional can be cleared while the
    // outer layer stays present, since only a wrapper discards its content.
    let mut dst: Option<Option<u32>> = Some(Some(1));
    let src: Option<Option<u32>> = Some(None);
    <Option<Option<u32>> as AbsoluteMaskable>::apply_mask(&mut dst, src, true);
    assert_eq!(dst, Some(None));
}

#[test]
fn presence_recomputed_on_every_merge() {
    // A collapsed slot comes back as soon as a later merge supplies content.
    let mut dst = Some(Sparse { a: 5 });
    let mask = SparseMask { a: true };
    <Option<Sparse> as AbsoluteMaskable>::apply_mask(&mut dst, Some(Sparse { a: 0 }), mask);
    assert_eq!(dst, None);
    <Option<Sparse> as AbsoluteMaskable>::apply_mask(&mut dst, Some(Sparse { a: 8 }), mask);
    assert_eq!(dst, Some(Sparse { a: 8 }));
}
