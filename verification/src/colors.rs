//! Colour-scheme records and the deep-merge engine.
//!
//! A colour record is a tree of optional leaves: an absent leaf means
//! "no opinion", never a sentinel colour. Merging an override record onto a
//! base record keeps, for every leaf, the override's value when it has one
//! and the base's value otherwise; nested records merge field by field,
//! never as opaque blocks.

use vstd::prelude::*;

verus! {

/// The eight named slots of one ANSI-style colour scheme.
#[derive(Debug, PartialEq, Eq)]
pub struct ColorScheme {
    pub black: Option<String>,
    pub blue: Option<String>,
    pub cyan: Option<String>,
    pub green: Option<String>,
    pub magenta: Option<String>,
    pub red: Option<String>,
    pub white: Option<String>,
    pub yellow: Option<String>,
}

/// Optional background and foreground colours.
#[derive(Debug, PartialEq, Eq)]
pub struct PrimaryColors {
    pub background: Option<String>,
    pub foreground: Option<String>,
}

/// Optional cursor and cursor-text colours.
#[derive(Debug, PartialEq, Eq)]
pub struct CursorColors {
    pub cursor: Option<String>,
    pub text: Option<String>,
}

/// The root colour record: the unit of merging and of transactional writes.
#[derive(Debug, PartialEq, Eq)]
pub struct Colors {
    pub bright: Option<ColorScheme>,
    pub cursor: Option<CursorColors>,
    pub normal: Option<ColorScheme>,
    pub primary: Option<PrimaryColors>,
}

/// Mathematical model of a `ColorScheme`: each slot as a character sequence.
pub ghost struct SchemeView {
    pub black: Option<Seq<char>>,
    pub blue: Option<Seq<char>>,
    pub cyan: Option<Seq<char>>,
    pub green: Option<Seq<char>>,
    pub magenta: Option<Seq<char>>,
    pub red: Option<Seq<char>>,
    pub white: Option<Seq<char>>,
    pub yellow: Option<Seq<char>>,
}

/// Mathematical model of `PrimaryColors`.
pub ghost struct PrimaryView {
    pub background: Option<Seq<char>>,
    pub foreground: Option<Seq<char>>,
}

/// Mathematical model of `CursorColors`.
pub ghost struct CursorView {
    pub cursor: Option<Seq<char>>,
    pub text: Option<Seq<char>>,
}

/// Mathematical model of a root colour record.
pub ghost struct ColorsView {
    pub bright: Option<SchemeView>,
    pub cursor: Option<CursorView>,
    pub normal: Option<SchemeView>,
    pub primary: Option<PrimaryView>,
}

/// Model of one optional colour value.
pub open spec fn view_opt(o: Option<String>) -> Option<Seq<char>> {
    match o {
        Some(s) => Some(s@),
        None => None,
    }
}

impl View for ColorScheme {
    type V = SchemeView;

    open spec fn view(&self) -> SchemeView {
        SchemeView {
            black: view_opt(self.black),
            blue: view_opt(self.blue),
            cyan: view_opt(self.cyan),
            green: view_opt(self.green),
            magenta: view_opt(self.magenta),
            red: view_opt(self.red),
            white: view_opt(self.white),
            yellow: view_opt(self.yellow),
        }
    }
}

impl View for PrimaryColors {
    type V = PrimaryView;

    open spec fn view(&self) -> PrimaryView {
        PrimaryView {
            background: view_opt(self.background),
            foreground: view_opt(self.foreground),
        }
    }
}

impl View for CursorColors {
    type V = CursorView;

    open spec fn view(&self) -> CursorView {
        CursorView {
            cursor: view_opt(self.cursor),
            text: view_opt(self.text),
        }
    }
}

impl View for Colors {
    type V = ColorsView;

    open spec fn view(&self) -> ColorsView {
        ColorsView {
            bright: match self.bright {
                Some(s) => Some(s@),
                None => None,
            },
            cursor: match self.cursor {
                Some(c) => Some(c@),
                None => None,
            },
            normal: match self.normal {
                Some(s) => Some(s@),
                None => None,
            },
            primary: match self.primary {
                Some(p) => Some(p@),
                None => None,
            },
        }
    }
}

/// Copies one optional colour value.
fn clone_opt(o: &Option<String>) -> (r: Option<String>)
    ensures
        view_opt(r) == view_opt(*o),
{
    match o {
        Some(s) => Some(s.clone()),
        None => None,
    }
}

impl Clone for ColorScheme {
    fn clone(&self) -> (r: Self)
        ensures
            r@ == self@,
    {
        ColorScheme {
            black: clone_opt(&self.black),
            blue: clone_opt(&self.blue),
            cyan: clone_opt(&self.cyan),
            green: clone_opt(&self.green),
            magenta: clone_opt(&self.magenta),
            red: clone_opt(&self.red),
            white: clone_opt(&self.white),
            yellow: clone_opt(&self.yellow),
        }
    }
}

impl Clone for PrimaryColors {
    fn clone(&self) -> (r: Self)
        ensures
            r@ == self@,
    {
        PrimaryColors {
            background: clone_opt(&self.background),
            foreground: clone_opt(&self.foreground),
        }
    }
}

impl Clone for CursorColors {
    fn clone(&self) -> (r: Self)
        ensures
            r@ == self@,
    {
        CursorColors { cursor: clone_opt(&self.cursor), text: clone_opt(&self.text) }
    }
}

impl Clone for Colors {
    fn clone(&self) -> (r: Self)
        ensures
            r@ == self@,
    {
        Colors {
            bright: match &self.bright {
                Some(s) => Some(s.clone()),
                None => None,
            },
            cursor: match &self.cursor {
                Some(c) => Some(c.clone()),
                None => None,
            },
            normal: match &self.normal {
                Some(s) => Some(s.clone()),
                None => None,
            },
            primary: match &self.primary {
                Some(p) => Some(p.clone()),
                None => None,
            },
        }
    }
}

/// The override wins where it has an opinion; otherwise the base does.
pub open spec fn spec_or(over: Option<Seq<char>>, base: Option<Seq<char>>) -> Option<Seq<char>> {
    match over {
        Some(s) => Some(s),
        None => base,
    }
}

/// Leaf-wise merge of two scheme models.
pub open spec fn spec_merge_scheme(base: SchemeView, over: SchemeView) -> SchemeView {
    SchemeView {
        black: spec_or(over.black, base.black),
        blue: spec_or(over.blue, base.blue),
        cyan: spec_or(over.cyan, base.cyan),
        green: spec_or(over.green, base.green),
        magenta: spec_or(over.magenta, base.magenta),
        red: spec_or(over.red, base.red),
        white: spec_or(over.white, base.white),
        yellow: spec_or(over.yellow, base.yellow),
    }
}

/// Leaf-wise merge of two primary-colour models.
pub open spec fn spec_merge_primary(base: PrimaryView, over: PrimaryView) -> PrimaryView {
    PrimaryView {
        background: spec_or(over.background, base.background),
        foreground: spec_or(over.foreground, base.foreground),
    }
}

/// Leaf-wise merge of two cursor-colour models.
pub open spec fn spec_merge_cursor(base: CursorView, over: CursorView) -> CursorView {
    CursorView {
        cursor: spec_or(over.cursor, base.cursor),
        text: spec_or(over.text, base.text),
    }
}

/// Merges one optional nested record field by field: a record present on only
/// one side is taken whole; present on both, its fields merge leaf by leaf.
pub open spec fn spec_merge_opt_scheme(
    base: Option<SchemeView>,
    over: Option<SchemeView>,
) -> Option<SchemeView> {
    match (over, base) {
        (Some(o), Some(b)) => Some(spec_merge_scheme(b, o)),
        (Some(o), None) => Some(o),
        (None, Some(b)) => Some(b),
        (None, None) => None,
    }
}

/// Deep merge of two root colour models: for every leaf the override's value
/// when present, else the base's; a leaf absent on both sides stays absent.
pub open spec fn spec_merge_colors(base: ColorsView, over: ColorsView) -> ColorsView {
    ColorsView {
        bright: spec_merge_opt_scheme(base.bright, over.bright),
        cursor: match (over.cursor, base.cursor) {
            (Some(o), Some(b)) => Some(spec_merge_cursor(b, o)),
            (Some(o), None) => Some(o),
            (None, Some(b)) => Some(b),
            (None, None) => None,
        },
        normal: spec_merge_opt_scheme(base.normal, over.normal),
        primary: match (over.primary, base.primary) {
            (Some(o), Some(b)) => Some(spec_merge_primary(b, o)),
            (Some(o), None) => Some(o),
            (None, Some(b)) => Some(b),
            (None, None) => None,
        },
    }
}

/// The record with no opinion anywhere: every field absent.
pub open spec fn empty_colors_view() -> ColorsView {
    ColorsView { bright: None, cursor: None, normal: None, primary: None }
}

impl Colors {
    /// Builds the record with no opinion anywhere.
    pub fn empty() -> (r: Colors)
        ensures
            r@ == empty_colors_view(),
    {
        Colors { bright: None, cursor: None, normal: None, primary: None }
    }

    /// Whether the record is structurally empty once absent fields are left
    /// out of its serialized form: such a record must be omitted from the
    /// external document entirely rather than written as an empty section.
    pub fn is_structurally_empty(&self) -> (r: bool)
        ensures
            r == (self@ == empty_colors_view()),
    {
        self.bright.is_none() && self.cursor.is_none() && self.normal.is_none()
            && self.primary.is_none()
    }
}

/// Merges one optional leaf: the override's value when present, else the base's.
fn merge_opt(over: &Option<String>, base: &Option<String>) -> (r: Option<String>)
    ensures
        view_opt(r) == spec_or(view_opt(*over), view_opt(*base)),
{
    match over {
        Some(s) => Some(s.clone()),
        None => clone_opt(base),
    }
}

/// Merges two colour schemes slot by slot; `custom` wins wherever it has an
/// opinion, `default` fills the rest.
pub fn merge_color_scheme(custom: &ColorScheme, default: &ColorScheme) -> (r: ColorScheme)
    ensures
        r@ == spec_merge_scheme(default@, custom@),
{
    ColorScheme {
        black: merge_opt(&custom.black, &default.black),
        blue: merge_opt(&custom.blue, &default.blue),
        cyan: merge_opt(&custom.cyan, &default.cyan),
        green: merge_opt(&custom.green, &default.green),
        magenta: merge_opt(&custom.magenta, &default.magenta),
        red: merge_opt(&custom.red, &default.red),
        white: merge_opt(&custom.white, &default.white),
        yellow: merge_opt(&custom.yellow, &default.yellow),
    }
}

/// Deep-merges `custom` over `default`: for every optional field the value of
/// `custom` when it has one, else the value of `default`; nested records merge
/// field by field, so a record that customises only one slot keeps the rest of
/// the default's slots.
pub fn merge_colors(default: &Colors, custom: &Colors) -> (r: Colors)
    ensures
        r@ == spec_merge_colors(default@, custom@),
{
    Colors {
        bright: match (&custom.bright, &default.bright) {
            (Some(c), Some(d)) => Some(merge_color_scheme(c, d)),
            (Some(c), None) => Some(c.clone()),
            (None, Some(d)) => Some(d.clone()),
            (None, None) => None,
        },
        cursor: match (&custom.cursor, &default.cursor) {
            (Some(c), Some(d)) => Some(
                CursorColors {
                    cursor: merge_opt(&c.cursor, &d.cursor),
                    text: merge_opt(&c.text, &d.text),
                },
            ),
            (Some(c), None) => Some(c.clone()),
            (None, Some(d)) => Some(d.clone()),
            (None, None) => None,
        },
        normal: match (&custom.normal, &default.normal) {
            (Some(c), Some(d)) => Some(merge_color_scheme(c, d)),
            (Some(c), None) => Some(c.clone()),
            (None, Some(d)) => Some(d.clone()),
            (None, None) => None,
        },
        primary: match (&custom.primary, &default.primary) {
            (Some(c), Some(d)) => Some(
                PrimaryColors {
                    background: merge_opt(&c.background, &d.background),
                    foreground: merge_opt(&c.foreground, &d.foreground),
                },
            ),
            (Some(c), None) => Some(c.clone()),
            (None, Some(d)) => Some(d.clone()),
            (None, None) => None,
        },
    }
}

/// One leaf position of a root colour record: every optional colour value
/// has exactly one such position.
#[derive(Clone, Copy, Debug, PartialEq, Eq)]
pub enum ColorLeaf {
    BrightBlack,
    BrightBlue,
    BrightCyan,
    BrightGreen,
    BrightMagenta,
    BrightRed,
    BrightWhite,
    BrightYellow,
    NormalBlack,
    NormalBlue,
    NormalCyan,
    NormalGreen,
    NormalMagenta,
    NormalRed,
    NormalWhite,
    NormalYellow,
    PrimaryBackground,
    PrimaryForeground,
    CursorCursor,
    CursorText,
}

/// The scheme with no opinion in any slot.
pub open spec fn empty_scheme_view() -> SchemeView {
    SchemeView {
        black: None,
        blue: None,
        cyan: None,
        green: None,
        magenta: None,
        red: None,
        white: None,
        yellow: None,
    }
}

/// An absent nested record holds the same leaves as an empty one.
pub open spec fn scheme_or_empty(o: Option<SchemeView>) -> SchemeView {
    match o {
        Some(s) => s,
        None => empty_scheme_view(),
    }
}

/// Projects one slot out of a scheme model.
pub open spec fn scheme_slot(s: SchemeView, l: ColorLeaf) -> Option<Seq<char>> {
    match l {
        ColorLeaf::BrightBlack | ColorLeaf::NormalBlack => s.black,
        ColorLeaf::BrightBlue | ColorLeaf::NormalBlue => s.blue,
        ColorLeaf::BrightCyan | ColorLeaf::NormalCyan => s.cyan,
        ColorLeaf::BrightGreen | ColorLeaf::NormalGreen => s.green,
        ColorLeaf::BrightMagenta | ColorLeaf::NormalMagenta => s.magenta,
        ColorLeaf::BrightRed | ColorLeaf::NormalRed => s.red,
        ColorLeaf::BrightWhite | ColorLeaf::NormalWhite => s.white,
        _ => s.yellow,
    }
}

/// The value at one leaf position; a leaf under an absent nested record is
/// absent.
pub open spec fn leaf_of(c: ColorsView, l: ColorLeaf) -> Option<Seq<char>> {
    match l {
        ColorLeaf::BrightBlack
        | ColorLeaf::BrightBlue
        | ColorLeaf::BrightCyan
        | ColorLeaf::BrightGreen
        | ColorLeaf::BrightMagenta
        | ColorLeaf::BrightRed
        | ColorLeaf::BrightWhite
        | ColorLeaf::BrightYellow => scheme_slot(scheme_or_empty(c.bright), l),
        ColorLeaf::NormalBlack
        | ColorLeaf::NormalBlue
        | ColorLeaf::NormalCyan
        | ColorLeaf::NormalGreen
        | ColorLeaf::NormalMagenta
        | ColorLeaf::NormalRed
        | ColorLeaf::NormalWhite
        | ColorLeaf::NormalYellow => scheme_slot(scheme_or_empty(c.normal), l),
        ColorLeaf::PrimaryBackground => match c.primary {
            Some(p) => p.background,
            None => None,
        },
        ColorLeaf::PrimaryForeground => match c.primary {
            Some(p) => p.foreground,
            None => None,
        },
        ColorLeaf::CursorCursor => match c.cursor {
            Some(cu) => cu.cursor,
            None => None,
        },
        ColorLeaf::CursorText => match c.cursor {
            Some(cu) => cu.text,
            None => None,
        },
    }
}

/// Replaces one slot of a scheme model.
pub open spec fn scheme_set_slot(s: SchemeView, l: ColorLeaf, v: Option<Seq<char>>) -> SchemeView {
    match l {
        ColorLeaf::BrightBlack | ColorLeaf::NormalBlack => SchemeView { black: v, ..s },
        ColorLeaf::BrightBlue | ColorLeaf::NormalBlue => SchemeView { blue: v, ..s },
        ColorLeaf::BrightCyan | ColorLeaf::NormalCyan => SchemeView { cyan: v, ..s },
        ColorLeaf::BrightGreen | ColorLeaf::NormalGreen => SchemeView { green: v, ..s },
        ColorLeaf::BrightMagenta | ColorLeaf::NormalMagenta => SchemeView { magenta: v, ..s },
        ColorLeaf::BrightRed | ColorLeaf::NormalRed => SchemeView { red: v, ..s },
        ColorLeaf::BrightWhite | ColorLeaf::NormalWhite => SchemeView { white: v, ..s },
        _ => SchemeView { yellow: v, ..s },
    }
}

/// Writes one leaf of a root record, creating the enclosing nested record
/// (with no other opinion) when it was absent.
pub open spec fn set_leaf(c: ColorsView, l: ColorLeaf, v: Option<Seq<char>>) -> ColorsView {
    match l {
        ColorLeaf::BrightBlack
        | ColorLeaf::BrightBlue
        | ColorLeaf::BrightCyan
        | ColorLeaf::BrightGreen
        | ColorLeaf::BrightMagenta
        | ColorLeaf::BrightRed
        | ColorLeaf::BrightWhite
        | ColorLeaf::BrightYellow => ColorsView {
            bright: Some(scheme_set_slot(scheme_or_empty(c.bright), l, v)),
            ..c
        },
        ColorLeaf::NormalBlack
        | ColorLeaf::NormalBlue
        | ColorLeaf::NormalCyan
        | ColorLeaf::NormalGreen
        | ColorLeaf::NormalMagenta
        | ColorLeaf::NormalRed
        | ColorLeaf::NormalWhite
        | ColorLeaf::NormalYellow => ColorsView {
            normal: Some(scheme_set_slot(scheme_or_empty(c.normal), l, v)),
            ..c
        },
        ColorLeaf::PrimaryBackground => ColorsView {
            primary: Some(
                PrimaryView {
                    background: v,
                    foreground: match c.primary {
                        Some(p) => p.foreground,
                        None => None,
                    },
                },
            ),
            ..c
        },
        ColorLeaf::PrimaryForeground => ColorsView {
            primary: Some(
                PrimaryView {
                    background: match c.primary {
                        Some(p) => p.background,
                        None => None,
                    },
                    foreground: v,
                },
            ),
            ..c
        },
        ColorLeaf::CursorCursor => ColorsView {
            cursor: Some(
                CursorView {
                    cursor: v,
                    text: match c.cursor {
                        Some(cu) => cu.text,
                        None => None,
                    },
                },
            ),
            ..c
        },
        ColorLeaf::CursorText => ColorsView {
            cursor: Some(
                CursorView {
                    cursor: match c.cursor {
                        Some(cu) => cu.cursor,
                        None => None,
                    },
                    text: v,
                },
            ),
            ..c
        },
    }
}

/// Merging is idempotent in its override: once an override has been merged
/// onto a base, merging the result onto the same base changes nothing.
pub proof fn lemma_merge_idempotent(b: ColorsView, o: ColorsView)
    ensures
        spec_merge_colors(b, spec_merge_colors(b, o)) == spec_merge_colors(b, o),
{
}

/// The empty record is the identity of the merge, on either side: an override
/// with no opinion leaves the base unchanged, and an empty base adds nothing
/// to the override.
pub proof fn lemma_merge_identity(c: ColorsView)
    ensures
        spec_merge_colors(c, empty_colors_view()) == c,
        spec_merge_colors(empty_colors_view(), c) == c,
{
}

/// The deep merge is exactly a leaf-wise choice: at every leaf position the
/// merged record holds the override's value when the override has one, and
/// the base's value otherwise.
pub proof fn lemma_merge_leafwise(b: ColorsView, o: ColorsView, l: ColorLeaf)
    ensures
        leaf_of(spec_merge_colors(b, o), l) == spec_or(leaf_of(o, l), leaf_of(b, l)),
{
}

/// Writing one leaf of a record leaves the value at every other leaf position
/// unchanged.
pub proof fn lemma_set_leaf_preserves_others(
    c: ColorsView,
    l: ColorLeaf,
    v: Option<Seq<char>>,
    l2: ColorLeaf,
)
    requires
        l2 != l,
    ensures
        leaf_of(set_leaf(c, l, v), l2) == leaf_of(c, l2),
{
}

/// Changing one leaf of the override changes at most that leaf of the merge:
/// every other leaf position of the merged record keeps its value.
pub proof fn lemma_field_independence(
    b: ColorsView,
    o: ColorsView,
    l: ColorLeaf,
    v: Option<Seq<char>>,
    l2: ColorLeaf,
)
    requires
        l2 != l,
    ensures
        leaf_of(spec_merge_colors(b, set_leaf(o, l, v)), l2) == leaf_of(spec_merge_colors(b, o), l2),
{
    lemma_merge_leafwise(b, set_leaf(o, l, v), l2);
    lemma_merge_leafwise(b, o, l2);
    lemma_set_leaf_preserves_others(o, l, v, l2);
}

} // verus!
