//! Reference record implementations of the maskable contract.
//!
//! Mask shapes for user-defined record types are normally emitted by a schema
//! compiler; this module holds small hand-written records that exhibit the
//! contract such generated code must satisfy: one mask slot per field,
//! segment-by-segment parsing with depth-stamped unknown-field errors, and
//! per-field delegation when a mask is applied.

use vstd::prelude::*;
use vstd::slice::slice_subrange;

use crate::maskable::AbsoluteMaskable;
use crate::maskable::DeserializeMaskError;
use crate::maskable::MaskParseFailure;
use crate::maskable::Maskable;
use crate::maskable::OptionalMaskable;

verus! {

/// Relies on std's `&str` equality: two string slices compare equal exactly
/// when they hold the same characters.
#[verifier::external_body]
fn str_eq(a: &str, b: &str) -> (r: bool)
    ensures
        r == (a@ == b@),
{
    a == b
}

/// A record with an integer field `a` and a text field `b`.
#[derive(Debug, Clone, PartialEq, Eq)]
pub struct Basic {
    pub a: u32,
    pub b: String,
}

/// The mask shape of `Basic`: one flag per scalar field.
#[derive(Debug, Clone, Copy, PartialEq, Eq)]
pub struct BasicMask {
    pub a: bool,
    pub b: bool,
}

impl Maskable for Basic {
    type Mask = BasicMask;

    open spec fn spec_default_mask() -> BasicMask {
        BasicMask { a: false, b: false }
    }

    open spec fn mask_includes(lo: BasicMask, hi: BasicMask) -> bool {
        &&& <u32 as Maskable>::mask_includes(lo.a, hi.a)
        &&& <String as Maskable>::mask_includes(lo.b, hi.b)
    }

    open spec fn spec_parse(mask: BasicMask, segs: Seq<Seq<char>>) -> Result<
        BasicMask,
        MaskParseFailure,
    > {
        if segs.len() == 0 {
            Ok(BasicMask { a: true, b: true })
        } else if segs[0] == "a"@ {
            match <u32 as Maskable>::spec_parse(mask.a, segs.skip(1)) {
                Ok(m) => Ok(BasicMask { a: m, b: mask.b }),
                Err(e) => Err(
                    MaskParseFailure { type_str: e.type_str, field: e.field, depth: e.depth + 1 },
                ),
            }
        } else if segs[0] == "b"@ {
            match <String as Maskable>::spec_parse(mask.b, segs.skip(1)) {
                Ok(m) => Ok(BasicMask { a: mask.a, b: m }),
                Err(e) => Err(
                    MaskParseFailure { type_str: e.type_str, field: e.field, depth: e.depth + 1 },
                ),
            }
        } else {
            Err(MaskParseFailure { type_str: "Basic"@, field: segs[0], depth: 0 })
        }
    }

    fn default_mask() -> (m: BasicMask) {
        BasicMask { a: false, b: false }
    }

    fn mask_is_default(mask: &BasicMask) -> (b: bool) {
        !mask.a && !mask.b
    }

    fn deserialize_mask<'a>(mask: &mut BasicMask, field_mask_segs: &[&'a str]) -> (r: Result<
        (),
        DeserializeMaskError<'a>,
    >) {
        if field_mask_segs.len() == 0 {
            mask.a = true;
            mask.b = true;
            Ok(())
        } else if str_eq(field_mask_segs[0], "a") {
            let rest = slice_subrange(field_mask_segs, 1, field_mask_segs.len());
            proof {
                assert(rest.deep_view() =~= field_mask_segs.deep_view().skip(1));
            }
            match <u32 as Maskable>::deserialize_mask(&mut mask.a, rest) {
                Ok(()) => Ok(()),
                Err(e) => Err(
                    DeserializeMaskError {
                        type_str: e.type_str,
                        field: e.field,
                        depth: e.depth + 1,
                    },
                ),
            }
        } else if str_eq(field_mask_segs[0], "b") {
            let rest = slice_subrange(field_mask_segs, 1, field_mask_segs.len());
            proof {
                assert(rest.deep_view() =~= field_mask_segs.deep_view().skip(1));
            }
            match <String as Maskable>::deserialize_mask(&mut mask.b, rest) {
                Ok(()) => Ok(()),
                Err(e) => Err(
                    DeserializeMaskError {
                        type_str: e.type_str,
                        field: e.field,
                        depth: e.depth + 1,
                    },
                ),
            }
        } else {
            Err(
                DeserializeMaskError {
                    type_str: "Basic",
                    field: field_mask_segs[0],
                    depth: 0,
                },
            )
        }
    }

    proof fn lemma_parse_additive(mask: BasicMask, segs: Seq<Seq<char>>) {
    }
}

impl AbsoluteMaskable for Basic {
    open spec fn spec_default() -> Basic {
        Basic {
            a: <u32 as AbsoluteMaskable>::spec_default(),
            b: <String as AbsoluteMaskable>::spec_default(),
        }
    }

    open spec fn spec_apply(dst: Basic, src: Basic, mask: BasicMask) -> Basic {
        Basic {
            a: <u32 as AbsoluteMaskable>::spec_apply(dst.a, src.a, mask.a),
            b: <String as AbsoluteMaskable>::spec_apply(dst.b, src.b, mask.b),
        }
    }

    fn default_value() -> (v: Basic) {
        Basic {
            a: <u32 as AbsoluteMaskable>::default_value(),
            b: <String as AbsoluteMaskable>::default_value(),
        }
    }

    fn apply_mask(&mut self, src: Basic, mask: BasicMask) {
        <u32 as AbsoluteMaskable>::apply_mask(&mut self.a, src.a, mask.a);
        <String as AbsoluteMaskable>::apply_mask(&mut self.b, src.b, mask.b);
    }

    proof fn lemma_apply_idempotent(dst: Basic, src: Basic, mask: BasicMask) {
    }

    proof fn lemma_apply_default_mask(dst: Basic, src: Basic) {
    }
}

/// A record with a single integer field `a`, used as the payload of nested
/// and optional slots.
#[derive(Debug, Clone, Copy, PartialEq, Eq)]
pub struct Inner {
    pub a: u32,
}

/// The mask shape of `Inner`.
#[derive(Debug, Clone, Copy, PartialEq, Eq)]
pub struct InnerMask {
    pub a: bool,
}

impl Maskable for Inner {
    type Mask = InnerMask;

    open spec fn spec_default_mask() -> InnerMask {
        InnerMask { a: false }
    }

    open spec fn mask_includes(lo: InnerMask, hi: InnerMask) -> bool {
        <u32 as Maskable>::mask_includes(lo.a, hi.a)
    }

    open spec fn spec_parse(mask: InnerMask, segs: Seq<Seq<char>>) -> Result<
        InnerMask,
        MaskParseFailure,
    > {
        if segs.len() == 0 {
            Ok(InnerMask { a: true })
        } else if segs[0] == "a"@ {
            match <u32 as Maskable>::spec_parse(mask.a, segs.skip(1)) {
                Ok(m) => Ok(InnerMask { a: m }),
                Err(e) => Err(
                    MaskParseFailure { type_str: e.type_str, field: e.field, depth: e.depth + 1 },
                ),
            }
        } else {
            Err(MaskParseFailure { type_str: "Inner"@, field: segs[0], depth: 0 })
        }
    }

    fn default_mask() -> (m: InnerMask) {
        InnerMask { a: false }
    }

    fn mask_is_default(mask: &InnerMask) -> (b: bool) {
        !mask.a
    }

    fn deserialize_mask<'a>(mask: &mut InnerMask, field_mask_segs: &[&'a str]) -> (r: Result<
        (),
        DeserializeMaskError<'a>,
    >) {
        if field_mask_segs.len() == 0 {
            mask.a = true;
            Ok(())
        } else if str_eq(field_mask_segs[0], "a") {
            let rest = slice_subrange(field_mask_segs, 1, field_mask_segs.len());
            proof {
                assert(rest.deep_view() =~= field_mask_segs.deep_view().skip(1));
            }
            match <u32 as Maskable>::deserialize_mask(&mut mask.a, rest) {
                Ok(()) => Ok(()),
                Err(e) => Err(
                    DeserializeMaskError {
                        type_str: e.type_str,
                        field: e.field,
                        depth: e.depth + 1,
                    },
                ),
            }
        } else {
            Err(
                DeserializeMaskError {
                    type_str: "Inner",
                    field: field_mask_segs[0],
                    depth: 0,
                },
            )
        }
    }

    proof fn lemma_parse_additive(mask: InnerMask, segs: Seq<Seq<char>>) {
    }
}

impl AbsoluteMaskable for Inner {
    open spec fn spec_default() -> Inner {
        Inner { a: 0 }
    }

    open spec fn spec_apply(dst: Inner, src: Inner, mask: InnerMask) -> Inner {
        Inner { a: <u32 as AbsoluteMaskable>::spec_apply(dst.a, src.a, mask.a) }
    }

    fn default_value() -> (v: Inner) {
        Inner { a: 0 }
    }

    fn apply_mask(&mut self, src: Inner, mask: InnerMask) {
        <u32 as AbsoluteMaskable>::apply_mask(&mut self.a, src.a, mask.a);
    }

    proof fn lemma_apply_idempotent(dst: Inner, src: Inner, mask: InnerMask) {
    }

    proof fn lemma_apply_default_mask(dst: Inner, src: Inner) {
    }
}

/// A record holding a nested record field `n`, exhibiting how unknown-field
/// errors are stamped with the depth at which the mismatch was detected.
#[derive(Debug, Clone, Copy, PartialEq, Eq)]
pub struct Outer {
    pub n: Inner,
}

/// The mask shape of `Outer`: the slot of a record field is that record's own
/// mask shape.
#[derive(Debug, Clone, Copy, PartialEq, Eq)]
pub struct OuterMask {
    pub n: InnerMask,
}

/// An error reported by `Inner`'s parser sits at most one record layer below
/// `Inner`'s own frame.
proof fn lemma_inner_parse_depth(mask: InnerMask, segs: Seq<Seq<char>>)
    ensures
        <Inner as Maskable>::spec_parse(mask, segs) matches Err(e) ==> e.depth <= 1,
{
}

impl Maskable for Outer {
    type Mask = OuterMask;

    open spec fn spec_default_mask() -> OuterMask {
        OuterMask { n: <Inner as Maskable>::spec_default_mask() }
    }

    open spec fn mask_includes(lo: OuterMask, hi: OuterMask) -> bool {
        <Inner as Maskable>::mask_includes(lo.n, hi.n)
    }

    open spec fn spec_parse(mask: OuterMask, segs: Seq<Seq<char>>) -> Result<
        OuterMask,
        MaskParseFailure,
    > {
        if segs.len() == 0 {
            Ok(OuterMask { n: InnerMask { a: true } })
        } else if segs[0] == "n"@ {
            match <Inner as Maskable>::spec_parse(mask.n, segs.skip(1)) {
                Ok(m) => Ok(OuterMask { n: m }),
                Err(e) => Err(
                    MaskParseFailure { type_str: e.type_str, field: e.field, depth: e.depth + 1 },
                ),
            }
        } else {
            Err(MaskParseFailure { type_str: "Outer"@, field: segs[0], depth: 0 })
        }
    }

    fn default_mask() -> (m: OuterMask) {
        OuterMask { n: <Inner as Maskable>::default_mask() }
    }

    fn mask_is_default(mask: &OuterMask) -> (b: bool) {
        <Inner as Maskable>::mask_is_default(&mask.n)
    }

    fn deserialize_mask<'a>(mask: &mut OuterMask, field_mask_segs: &[&'a str]) -> (r: Result<
        (),
        DeserializeMaskError<'a>,
    >) {
        if field_mask_segs.len() == 0 {
            mask.n.a = true;
            Ok(())
        } else if str_eq(field_mask_segs[0], "n") {
            let rest = slice_subrange(field_mask_segs, 1, field_mask_segs.len());
            proof {
                assert(rest.deep_view() =~= field_mask_segs.deep_view().skip(1));
                lemma_inner_parse_depth(mask.n, rest.deep_view());
            }
            match <Inner as Maskable>::deserialize_mask(&mut mask.n, rest) {
                Ok(()) => Ok(()),
                Err(e) => Err(
                    DeserializeMaskError {
                        type_str: e.type_str,
                        field: e.field,
                        depth: e.depth + 1,
                    },
                ),
            }
        } else {
            Err(
                DeserializeMaskError {
                    type_str: "Outer",
                    field: field_mask_segs[0],
                    depth: 0,
                },
            )
        }
    }

    proof fn lemma_parse_additive(mask: OuterMask, segs: Seq<Seq<char>>) {
    }
}

impl AbsoluteMaskable for Outer {
    open spec fn spec_default() -> Outer {
        Outer { n: <Inner as AbsoluteMaskable>::spec_default() }
    }

    open spec fn spec_apply(dst: Outer, src: Outer, mask: OuterMask) -> Outer {
        Outer { n: <Inner as AbsoluteMaskable>::spec_apply(dst.n, src.n, mask.n) }
    }

    fn default_value() -> (v: Outer) {
        Outer { n: <Inner as AbsoluteMaskable>::default_value() }
    }

    fn apply_mask(&mut self, src: Outer, mask: OuterMask) {
        <Inner as AbsoluteMaskable>::apply_mask(&mut self.n, src.n, mask.n);
    }

    proof fn lemma_apply_idempotent(dst: Outer, src: Outer, mask: OuterMask) {
    }

    proof fn lemma_apply_default_mask(dst: Outer, src: Outer) {
    }
}

/// A record whose presence-reporting merge treats a zero field as no content:
/// whenever the merged value is zero it reports absent, so an enclosing
/// optional slot collapses rather than holding an empty record. This is the
/// shape a generator emits for a record meant to disappear when emptied.
#[derive(Debug, Clone, Copy, PartialEq, Eq)]
pub struct Sparse {
    pub a: u32,
}

/// The mask shape of `Sparse`.
#[derive(Debug, Clone, Copy, PartialEq, Eq)]
pub struct SparseMask {
    pub a: bool,
}

impl Maskable for Sparse {
    type Mask = SparseMask;

    open spec fn spec_default_mask() -> SparseMask {
        SparseMask { a: false }
    }

    open spec fn mask_includes(lo: SparseMask, hi: SparseMask) -> bool {
        <u32 as Maskable>::mask_includes(lo.a, hi.a)
    }

    open spec fn spec_parse(mask: SparseMask, segs: Seq<Seq<char>>) -> Result<
        SparseMask,
        MaskParseFailure,
    > {
        if segs.len() == 0 {
            Ok(SparseMask { a: true })
        } else if segs[0] == "a"@ {
            match <u32 as Maskable>::spec_parse(mask.a, segs.skip(1)) {
                Ok(m) => Ok(SparseMask { a: m }),
                Err(e) => Err(
                    MaskParseFailure { type_str: e.type_str, field: e.field, depth: e.depth + 1 },
                ),
            }
        } else {
            Err(MaskParseFailure { type_str: "Sparse"@, field: segs[0], depth: 0 })
        }
    }

    fn default_mask() -> (m: SparseMask) {
        SparseMask { a: false }
    }

    fn mask_is_default(mask: &SparseMask) -> (b: bool) {
        !mask.a
    }

    fn deserialize_mask<'a>(mask: &mut SparseMask, field_mask_segs: &[&'a str]) -> (r: Result<
        (),
        DeserializeMaskError<'a>,
    >) {
        if field_mask_segs.len() == 0 {
            mask.a = true;
            Ok(())
        } else if str_eq(field_mask_segs[0], "a") {
            let rest = slice_subrange(field_mask_segs, 1, field_mask_segs.len());
            proof {
                assert(rest.deep_view() =~= field_mask_segs.deep_view().skip(1));
            }
            match <u32 as Maskable>::deserialize_mask(&mut mask.a, rest) {
                Ok(()) => Ok(()),
                Err(e) => Err(
                    DeserializeMaskError {
                        type_str: e.type_str,
                        field: e.field,
                        depth: e.depth + 1,
                    },
                ),
            }
        } else {
            Err(
                DeserializeMaskError {
                    type_str: "Sparse",
                    field: field_mask_segs[0],
                    depth: 0,
                },
            )
        }
    }

    proof fn lemma_parse_additive(mask: SparseMask, segs: Seq<Seq<char>>) {
    }
}

impl OptionalMaskable for Sparse {
    open spec fn spec_default() -> Sparse {
        Sparse { a: 0 }
    }

    open spec fn spec_apply_check(dst: Sparse, src: Sparse, mask: SparseMask) -> (Sparse, bool) {
        let merged = Sparse { a: if mask.a { src.a } else { dst.a } };
        (merged, merged.a != 0)
    }

    fn default_value() -> (v: Sparse) {
        Sparse { a: 0 }
    }

    fn apply_mask(&mut self, src: Sparse, mask: SparseMask) -> (present: bool) {
        if mask.a {
            self.a = src.a;
        }
        self.a != 0
    }

    proof fn lemma_apply_check_idempotent(dst: Sparse, src: Sparse, mask: SparseMask) {
    }

    proof fn lemma_absent_verdict_from_default(dst: Sparse, src: Sparse, mask: SparseMask) {
    }
}

} // verus!
