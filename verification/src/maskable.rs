//! The maskable traits: parsing field paths into mask values and applying a
//! mask to merge a source value into a destination value.

use vstd::prelude::*;
use vstd::string::StringExecFns;

verus! {

/// The mathematical content of a failed mask parse: the name of the type that
/// rejected the path, the offending segment, and how many record layers had
/// been descended through when the mismatch was detected.
pub ghost struct MaskParseFailure {
    pub type_str: Seq<char>,
    pub field: Seq<char>,
    pub depth: nat,
}

/// The error returned when a field path names a field that does not exist at
/// the current type and depth. Borrows the offending segment from the input.
#[derive(Debug)]
pub struct DeserializeMaskError<'a> {
    pub type_str: &'a str,
    pub field: &'a str,
    pub depth: u8,
}

impl<'a> DeserializeMaskError<'a> {
    /// The human-readable form of the error.
    pub open spec fn spec_message(self) -> Seq<char> {
        "there's no \""@ + self.field@ + "\" in `"@ + self.type_str@ + "`"@
    }

    /// Render the error as text, naming the missing field and the type.
    pub fn message(&self) -> (r: String)
        ensures
            r@ == self.spec_message(),
    {
        let mut r = String::from_str("there's no \"");
        r.append(self.field);
        r.append("\" in `");
        r.append(self.type_str);
        r.append("`");
        r
    }

    /// Whether this error carries the same content as the given failure value.
    pub open spec fn corresponds(self, e: MaskParseFailure) -> bool {
        &&& self.type_str@ == e.type_str
        &&& self.field@ == e.field
        &&& self.depth == e.depth
    }
}

/// A type whose fields can be selected by a mask. The mask shape is given by
/// the associated type; parsing a path accumulates selections into a mask
/// value.
pub trait Maskable: Sized {
    type Mask;

    /// The "nothing selected" mask value.
    spec fn spec_default_mask() -> Self::Mask;

    /// Every selection made in `lo` is also made in `hi`.
    spec fn mask_includes(lo: Self::Mask, hi: Self::Mask) -> bool;

    /// What parsing the given path segments into the given mask yields:
    /// either the accumulated mask, or the failure that the path provokes.
    spec fn spec_parse(mask: Self::Mask, segs: Seq<Seq<char>>) -> Result<
        Self::Mask,
        MaskParseFailure,
    >;

    /// Construct the "nothing selected" mask.
    fn default_mask() -> (m: Self::Mask)
        ensures
            m == Self::spec_default_mask(),
    ;

    /// Decide whether a mask selects nothing.
    fn mask_is_default(mask: &Self::Mask) -> (b: bool)
        ensures
            b == (*mask == Self::spec_default_mask()),
    ;

    /// Accumulate one field path into the mask. On success the mask holds
    /// exactly what `spec_parse` says; on failure the mask is unchanged and
    /// the error carries the failing segment, the type that rejected it, and
    /// the depth of the rejecting frame.
    fn deserialize_mask<'a>(mask: &mut Self::Mask, field_mask_segs: &[&'a str]) -> (r: Result<
        (),
        DeserializeMaskError<'a>,
    >)
        ensures
            match Self::spec_parse(*old(mask), field_mask_segs.deep_view()) {
                Ok(m) => r is Ok && *final(mask) == m,
                Err(e) => r is Err && *final(mask) == *old(mask) && r->Err_0.corresponds(e),
            },
    ;

    /// Parsing is additive: a successful parse may set further selections but
    /// never clears one that was already set.
    proof fn lemma_parse_additive(mask: Self::Mask, segs: Seq<Seq<char>>)
        ensures
            Self::spec_parse(mask, segs) matches Ok(m) ==> Self::mask_includes(mask, m),
    ;
}

/// A maskable type whose masked merge always yields a value: selected fields
/// are taken from the source, the rest keep the destination's values.
pub trait AbsoluteMaskable: Maskable {
    /// The from-scratch value that an optional wrapper merges into when its
    /// destination is absent.
    spec fn spec_default() -> Self;

    /// The result of merging `src` into `dst` under `mask`.
    spec fn spec_apply(dst: Self, src: Self, mask: Self::Mask) -> Self;

    /// Construct the from-scratch value.
    fn default_value() -> (v: Self)
        ensures
            v == Self::spec_default(),
    ;

    /// Merge the mask-selected fields of `src` into `self`.
    fn apply_mask(&mut self, src: Self, mask: Self::Mask)
        ensures
            *final(self) == Self::spec_apply(*old(self), src, mask),
    ;

    /// Masked merge is idempotent: applying the same source and mask a second
    /// time changes nothing further.
    proof fn lemma_apply_idempotent(dst: Self, src: Self, mask: Self::Mask)
        ensures
            Self::spec_apply(Self::spec_apply(dst, src, mask), src, mask) == Self::spec_apply(
                dst,
                src,
                mask,
            ),
    ;

    /// A mask that selects nothing leaves the destination unchanged.
    proof fn lemma_apply_default_mask(dst: Self, src: Self)
        ensures
            Self::spec_apply(dst, src, Self::spec_default_mask()) == dst,
    ;
}

/// A maskable type whose masked merge additionally reports whether the merged
/// result should be treated as present, so that a wrapping optional layer can
/// collapse to absent.
pub trait OptionalMaskable: Maskable {
    /// The from-scratch value that an optional wrapper merges into when its
    /// destination is absent.
    spec fn spec_default() -> Self;

    /// The result of merging `src` into `dst` under `mask`, together with the
    /// presence verdict.
    spec fn spec_apply_check(dst: Self, src: Self, mask: Self::Mask) -> (Self, bool);

    /// Construct the from-scratch value.
    fn default_value() -> (v: Self)
        ensures
            v == Self::spec_default(),
    ;

    /// Merge the mask-selected fields of `src` into `self` and report whether
    /// the result should be treated as present.
    fn apply_mask(&mut self, src: Self, mask: Self::Mask) -> (present: bool)
        ensures
            *final(self) == Self::spec_apply_check(*old(self), src, mask).0,
            present == Self::spec_apply_check(*old(self), src, mask).1,
    ;

    /// The presence-reporting merge is idempotent: merging the same source
    /// and mask into its own result changes neither the value nor the
    /// verdict.
    proof fn lemma_apply_check_idempotent(dst: Self, src: Self, mask: Self::Mask)
        ensures
            Self::spec_apply_check(Self::spec_apply_check(dst, src, mask).0, src, mask)
                == Self::spec_apply_check(dst, src, mask),
    ;

    /// Verdicts are no more generous from a fresh default: if merging into
    /// some destination reports absent, merging the same source and mask into
    /// the from-scratch default reports absent as well. This is what keeps an
    /// optional layer from fabricating presence on its second application.
    proof fn lemma_absent_verdict_from_default(dst: Self, src: Self, mask: Self::Mask)
        ensures
            !Self::spec_apply_check(dst, src, mask).1 ==> !Self::spec_apply_check(
                Self::spec_default(),
                src,
                mask,
            ).1,
    ;
}

/// Any type with an unconditional merge gains the presence-reporting merge:
/// it merges unconditionally and always reports present. Once populated, such
/// a value never decides to disappear on its own; only an enclosing optional
/// layer can discard it.
impl<T: AbsoluteMaskable> OptionalMaskable for T {
    open spec fn spec_default() -> T {
        <T as AbsoluteMaskable>::spec_default()
    }

    open spec fn spec_apply_check(dst: T, src: T, mask: T::Mask) -> (T, bool) {
        (<T as AbsoluteMaskable>::spec_apply(dst, src, mask), true)
    }

    fn default_value() -> (v: T) {
        <T as AbsoluteMaskable>::default_value()
    }

    fn apply_mask(&mut self, src: T, mask: T::Mask) -> (present: bool) {
        <T as AbsoluteMaskable>::apply_mask(self, src, mask);
        true
    }

    proof fn lemma_apply_check_idempotent(dst: T, src: T, mask: T::Mask) {
        <T as AbsoluteMaskable>::lemma_apply_idempotent(dst, src, mask);
    }

    proof fn lemma_absent_verdict_from_default(dst: T, src: T, mask: T::Mask) {
    }
}

/// An optional layer consumes no path segments: it shares the inner type's
/// mask shape and parser unchanged.
impl<T: Maskable> Maskable for Option<T> {
    type Mask = T::Mask;

    open spec fn spec_default_mask() -> T::Mask {
        T::spec_default_mask()
    }

    open spec fn mask_includes(lo: T::Mask, hi: T::Mask) -> bool {
        T::mask_includes(lo, hi)
    }

    open spec fn spec_parse(mask: T::Mask, segs: Seq<Seq<char>>) -> Result<
        T::Mask,
        MaskParseFailure,
    > {
        T::spec_parse(mask, segs)
    }

    fn default_mask() -> (m: T::Mask) {
        T::default_mask()
    }

    fn mask_is_default(mask: &T::Mask) -> (b: bool) {
        T::mask_is_default(mask)
    }

    fn deserialize_mask<'a>(mask: &mut T::Mask, field_mask_segs: &[&'a str]) -> (r: Result<
        (),
        DeserializeMaskError<'a>,
    >) {
        T::deserialize_mask(mask, field_mask_segs)
    }

    proof fn lemma_parse_additive(mask: T::Mask, segs: Seq<Seq<char>>) {
        T::lemma_parse_additive(mask, segs);
    }
}

/// The four-way presence merge for an optional slot. Presence is recomputed
/// on every merge from the current destination, source, and mask alone.
impl<T: OptionalMaskable> AbsoluteMaskable for Option<T> {
    open spec fn spec_default() -> Option<T> {
        None
    }

    open spec fn spec_apply(dst: Option<T>, src: Option<T>, mask: T::Mask) -> Option<T> {
        if mask == T::spec_default_mask() {
            // A mask that selects nothing never touches the destination,
            // whatever is present on either side.
            dst
        } else {
            match (dst, src) {
                (Some(d), Some(s)) => {
                    let (v, present) = T::spec_apply_check(d, s, mask);
                    if present {
                        Some(v)
                    } else {
                        None
                    }
                },
                // An absent source under a non-trivial mask clears the field.
                (Some(d), None) => None,
                (None, Some(s)) => {
                    let (v, present) = T::spec_apply_check(
                        <T as OptionalMaskable>::spec_default(),
                        s,
                        mask,
                    );
                    if present {
                        Some(v)
                    } else {
                        None
                    }
                },
                (None, None) => None,
            }
        }
    }

    fn default_value() -> (v: Option<T>) {
        None
    }

    fn apply_mask(&mut self, src: Option<T>, mask: T::Mask) {
        if <Option<T> as Maskable>::mask_is_default(&mask) {
            // A mask that selects nothing touches neither side.
            return ;
        }
        let dst = self.take();
        match (dst, src) {
            (Some(mut d), Some(s)) => {
                let present = <T as OptionalMaskable>::apply_mask(&mut d, s, mask);
                if present {
                    *self = Some(d);
                }
            },
            (Some(_), None) => {},
            (None, Some(s)) => {
                let mut fresh = <T as OptionalMaskable>::default_value();
                let present = <T as OptionalMaskable>::apply_mask(&mut fresh, s, mask);
                if present {
                    *self = Some(fresh);
                }
            },
            (None, None) => {},
        }
    }

    proof fn lemma_apply_idempotent(dst: Option<T>, src: Option<T>, mask: T::Mask) {
        if mask != T::spec_default_mask() {
            match (dst, src) {
                (Some(d), Some(s)) => {
                    T::lemma_apply_check_idempotent(d, s, mask);
                    T::lemma_absent_verdict_from_default(d, s, mask);
                },
                (None, Some(s)) => {
                    T::lemma_apply_check_idempotent(
                        <T as OptionalMaskable>::spec_default(),
                        s,
                        mask,
                    );
                },
                _ => {},
            }
        }
    }

    proof fn lemma_apply_default_mask(dst: Option<T>, src: Option<T>) {
    }
}

/// Scalar replace law for the integer terminal: a set flag replaces the
/// destination with the source entirely; a clear flag leaves it untouched.
pub proof fn lemma_scalar_replace_int(dst: u32, src: u32)
    ensures
        <u32 as AbsoluteMaskable>::spec_apply(dst, src, true) == src,
        <u32 as AbsoluteMaskable>::spec_apply(dst, src, false) == dst,
{
}

/// Scalar replace law for the text terminal: a set flag replaces the
/// destination with the source entirely; a clear flag leaves it untouched.
pub proof fn lemma_scalar_replace_text(dst: String, src: String)
    ensures
        <String as AbsoluteMaskable>::spec_apply(dst, src, true) == src,
        <String as AbsoluteMaskable>::spec_apply(dst, src, false) == dst,
{
}

/// Optional collapse law: when both sides are present and the inner merge
/// reports absent under a non-trivial mask, the optional slot becomes absent,
/// never present with a stale or default value.
pub proof fn lemma_optional_collapse<T: OptionalMaskable>(
    dst: Option<T>,
    src: Option<T>,
    mask: T::Mask,
)
    requires
        mask != T::spec_default_mask(),
        dst matches Some(d) && src matches Some(s) && !T::spec_apply_check(d, s, mask).1,
    ensures
        <Option<T> as AbsoluteMaskable>::spec_apply(dst, src, mask) is None,
{
}

/// Presence-from-absent law: a merge into an absent destination leaves it
/// absent whenever the source is absent too, the mask selects nothing, or the
/// merge from a fresh default reports absent; presence is never fabricated.
pub proof fn lemma_no_presence_from_absent<T: OptionalMaskable>(
    dst: Option<T>,
    src: Option<T>,
    mask: T::Mask,
)
    requires
        dst is None,
        src matches Some(s) ==> !T::spec_apply_check(
            <T as OptionalMaskable>::spec_default(),
            s,
            mask,
        ).1,
    ensures
        <Option<T> as AbsoluteMaskable>::spec_apply(dst, src, mask) is None,
{
}

impl Maskable for u32 {
    type Mask = bool;

    open spec fn spec_default_mask() -> bool {
        false
    }

    open spec fn mask_includes(lo: bool, hi: bool) -> bool {
        lo ==> hi
    }

    open spec fn spec_parse(mask: bool, segs: Seq<Seq<char>>) -> Result<bool, MaskParseFailure> {
        if segs.len() == 0 {
            Ok(true)
        } else {
            Err(MaskParseFailure { type_str: "u32"@, field: segs[0], depth: 0 })
        }
    }

    fn default_mask() -> (m: bool) {
        false
    }

    fn mask_is_default(mask: &bool) -> (b: bool) {
        !*mask
    }

    fn deserialize_mask<'a>(mask: &mut bool, field_mask_segs: &[&'a str]) -> (r: Result<
        (),
        DeserializeMaskError<'a>,
    >) {
        if field_mask_segs.len() == 0 {
            *mask = true;
            Ok(())
        } else {
            Err(DeserializeMaskError { type_str: "u32", field: field_mask_segs[0], depth: 0 })
        }
    }

    proof fn lemma_parse_additive(mask: bool, segs: Seq<Seq<char>>) {
    }
}

impl AbsoluteMaskable for u32 {
    open spec fn spec_default() -> u32 {
        0
    }

    open spec fn spec_apply(dst: u32, src: u32, mask: bool) -> u32 {
        if mask {
            src
        } else {
            dst
        }
    }

    fn default_value() -> (v: u32) {
        0
    }

    fn apply_mask(&mut self, src: u32, mask: bool) {
        if mask {
            *self = src;
        }
    }

    proof fn lemma_apply_idempotent(dst: u32, src: u32, mask: bool) {
    }

    proof fn lemma_apply_default_mask(dst: u32, src: u32) {
    }
}

impl Maskable for String {
    type Mask = bool;

    open spec fn spec_default_mask() -> bool {
        false
    }

    open spec fn mask_includes(lo: bool, hi: bool) -> bool {
        lo ==> hi
    }

    open spec fn spec_parse(mask: bool, segs: Seq<Seq<char>>) -> Result<bool, MaskParseFailure> {
        if segs.len() == 0 {
            Ok(true)
        } else {
            Err(MaskParseFailure { type_str: "String"@, field: segs[0], depth: 0 })
        }
    }

    fn default_mask() -> (m: bool) {
        false
    }

    fn mask_is_default(mask: &bool) -> (b: bool) {
        !*mask
    }

    fn deserialize_mask<'a>(mask: &mut bool, field_mask_segs: &[&'a str]) -> (r: Result<
        (),
        DeserializeMaskError<'a>,
    >) {
        if field_mask_segs.len() == 0 {
            *mask = true;
            Ok(())
        } else {
            Err(DeserializeMaskError { type_str: "String", field: field_mask_segs[0], depth: 0 })
        }
    }

    proof fn lemma_parse_additive(mask: bool, segs: Seq<Seq<char>>) {
    }
}

/// The value that `String::with_capacity` returns for a given capacity: the
/// empty string, determined by the argument alone.
pub uninterp spec fn fresh_text(capacity: usize) -> String;

/// Relies on std's `String::with_capacity`: it returns the empty string, and
/// the result depends on its argument alone.
#[verifier::external_body]
fn text_with_capacity(capacity: usize) -> (r: String)
    ensures
        r == fresh_text(capacity),
        r@ == Seq::<char>::empty(),
{
    String::with_capacity(capacity)
}

impl AbsoluteMaskable for String {
    open spec fn spec_default() -> String {
        fresh_text(0)
    }

    open spec fn spec_apply(dst: String, src: String, mask: bool) -> String {
        if mask {
            src
        } else {
            dst
        }
    }

    fn default_value() -> (v: String) {
        text_with_capacity(0)
    }

    fn apply_mask(&mut self, src: String, mask: bool) {
        if mask {
            *self = src;
        }
    }

    proof fn lemma_apply_idempotent(dst: String, src: String, mask: bool) {
    }

    proof fn lemma_apply_default_mask(dst: String, src: String) {
    }
}

} // verus!
