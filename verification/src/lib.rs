//! A noun-inflection engine for a language with stem-internal vowel
//! syncope, consonant epenthesis ("skerping"), and palatalization-driven
//! suffix alternation.
//!
//! A noun's citation form is written in a compact bracket notation,
//! `stem ['(' deletable ')' end] [marker]`: the parenthesised vowel is
//! present before consonant-initial endings and dropped before
//! vowel-initial ones, and the optional trailing marker records
//! palatalization or skerping. [`Root::parse`] turns the notation into a
//! [`Root`]; a declension class then maps each of the eight case/number
//! slots to a stem shape plus ending, and a table renderer lays the
//! results out in an aligned grid.

use vstd::prelude::*;

pub mod filters;
pub mod forms;
pub mod nouns;

pub use filters::{dash, is_vowel, skerping};
pub use forms::{Form, Inflection, InflectionModel, RootForm, RootFormModel, WordForm};

verus! {

/// Marker glyph recording that a root is palatalised.
pub const PALATAL_MARKER: char = 'ʲ';

/// Marker glyph recording that a root undergoes skerping.
pub const SKERPING_MARKER: char = 'ˠ';

/// The phonological property a citation form's trailing marker records:
/// at most one of the two, never both.
#[derive(Debug, Clone, Copy, PartialEq, Eq, Structural)]
pub enum Extra {
    Nothing,
    Skerping,
    Palatalised,
}

impl Default for Extra {
    fn default() -> (e: Extra)
        ensures
            e == Extra::Nothing,
    {
        Extra::Nothing
    }
}

/// The mathematical model of a [`Root`]: its three segments as character
/// sequences, plus the marker.
#[verifier::ext_equal]
pub ghost struct RootModel {
    pub first_stem: Seq<char>,
    pub deletable: Seq<char>,
    pub end: Seq<char>,
    pub extra: Extra,
}

impl RootModel {
    pub open spec fn palatalised(self) -> bool {
        self.extra == Extra::Palatalised
    }

    pub open spec fn skerping(self) -> bool {
        self.extra == Extra::Skerping
    }

    /// A skerping root must end, before its bracket segments, in a vowel
    /// with a mapped cluster; stem rendering is undefined otherwise.
    pub open spec fn cluster_ok(self) -> bool {
        self.skerping() ==> self.first_stem.len() > 0
            && crate::filters::spec_skerping(self.first_stem.last()) is Some
    }

    pub open spec fn seg_len(self) -> nat {
        self.first_stem.len() + self.deletable.len() + self.end.len()
    }

    /// Room for the longest cluster and ending without usize overflow.
    pub open spec fn fits(self) -> bool {
        self.seg_len() + 8 <= usize::MAX
    }

    pub open spec fn wf(self) -> bool {
        self.cluster_ok() && self.fits()
    }

    /// The cluster a skerping root inserts, keyed on the last stem
    /// character, with the trailing yod removed when `drop_yod` is set.
    pub open spec fn cluster(self, drop_yod: bool) -> Seq<char> {
        let cl = crate::filters::spec_skerping(self.first_stem.last())->0;
        if drop_yod && cl.len() > 0 && cl.last() == 'j' {
            cl.drop_last()
        } else {
            cl
        }
    }
}

/// The parsed representation of a noun's citation form. Immutable once
/// constructed by [`Root::parse`].
#[derive(Debug, Clone)]
pub struct Root {
    /// Invariant prefix present in every rendered form.
    pub first_stem: String,
    /// Epenthetic vowel, present before consonant-initial endings and
    /// dropped (syncope) before vowel-initial ones; possibly empty.
    pub deletable: String,
    /// Fixed suffix-adjacent cluster present in every form; possibly empty.
    pub end: String,
    /// The phonological marker carried by the citation form.
    pub extra: Extra,
}

impl View for Root {
    type V = RootModel;

    open spec fn view(&self) -> RootModel {
        RootModel {
            first_stem: self.first_stem@,
            deletable: self.deletable@,
            end: self.end@,
            extra: self.extra,
        }
    }
}

impl Default for Root {
    fn default() -> (r: Root)
        ensures
            r@ == (RootModel {
                first_stem: Seq::<char>::empty(),
                deletable: Seq::<char>::empty(),
                end: Seq::<char>::empty(),
                extra: Extra::Nothing,
            }),
    {
        Root {
            first_stem: String::new(),
            deletable: String::new(),
            end: String::new(),
            extra: Extra::Nothing,
        }
    }
}

/// The marker encoded by a citation string's last character, if any.
pub open spec fn spec_marker(s: Seq<char>) -> Extra {
    if s.len() > 0 && s.last() == PALATAL_MARKER {
        Extra::Palatalised
    } else if s.len() > 0 && s.last() == SKERPING_MARKER {
        Extra::Skerping
    } else {
        Extra::Nothing
    }
}

/// A citation string with its marker glyph, if any, removed.
pub open spec fn spec_stripped(s: Seq<char>) -> Seq<char> {
    if spec_marker(s) == Extra::Nothing {
        s
    } else {
        s.drop_last()
    }
}

/// The root denoted by a citation string: the marker is stripped first;
/// then, when a `(` and a later `)` both occur, the text splits into the
/// stem before `(`, the deletable segment inside the first such pair, and
/// the end after `)`. With the parentheses absent or out of order the
/// whole remainder is the stem.
pub open spec fn spec_parse(s: Seq<char>) -> RootModel {
    let t = spec_stripped(s);
    let lp = t.index_of_first('(');
    let rp = t.index_of_first(')');
    if lp is Some && rp is Some && lp->0 < rp->0 {
        RootModel {
            first_stem: t.subrange(0, lp->0),
            deletable: t.subrange(lp->0 + 1, rp->0),
            end: t.subrange(rp->0 + 1, t.len() as int),
            extra: spec_marker(s),
        }
    } else {
        RootModel {
            first_stem: t,
            deletable: Seq::empty(),
            end: Seq::empty(),
            extra: spec_marker(s),
        }
    }
}

/// Index of the first occurrence of `c` in `s`, if any.
fn find_char(s: &str, c: char) -> (r: Option<usize>)
    ensures
        match r {
            Some(i) => i < s@.len() && s@[i as int] == c && forall|j: int|
                0 <= j < i ==> s@[j] != c,
            None => forall|j: int| 0 <= j < s@.len() ==> s@[j] != c,
        },
{
    let n = s.unicode_len();
    let mut i: usize = 0;
    while i < n
        invariant
            i <= n,
            n == s@.len(),
            forall|j: int| 0 <= j < i ==> s@[j] != c,
        decreases n - i,
    {
        if s.get_char(i) == c {
            return Some(i);
        }
        i += 1;
    }
    None
}

/// Relates the outcome of a forward character scan to
/// `Seq::index_of_first`.
proof fn lemma_scan_is_index_of_first(s: Seq<char>, c: char, r: Option<usize>)
    requires
        match r {
            Some(i) => i < s.len() && s[i as int] == c && forall|j: int|
                0 <= j < i ==> s[j] != c,
            None => forall|j: int| 0 <= j < s.len() ==> s[j] != c,
        },
    ensures
        match r {
            Some(i) => s.index_of_first(c) == Some(i as int),
            None => s.index_of_first(c) is None,
        },
{
    s.index_of_first_ensures(c);
    match r {
        Some(i) => {
            assert(s.contains(c)) by {
                assert(0 <= i < s.len() && s[i as int] == c);
            }
            let idx = s.index_of_first(c)->0;
            if idx < i as int {
                assert(s[idx] != c);
            }
            if idx > i as int {
                assert(s[i as int] != c);
            }
        },
        None => {
            if s.contains(c) {
                let k = choose|k: int| 0 <= k < s.len() && s[k] == c;
                assert(s[k] != c);
            }
        },
    }
}

impl Root {
    /// Parses a citation form: strips the trailing marker, then splits on
    /// the first parenthesis pair.
    pub fn parse(s: &str) -> (r: Root)
        requires
            s@.len() + 8 <= usize::MAX,
        ensures
            r@ == spec_parse(s@),
            r@.fits(),
    {
        let n = s.unicode_len();
        let (t, extra): (&str, Extra) = if n > 0 {
            let last = s.get_char(n - 1);
            if last == PALATAL_MARKER {
                (s.substring_char(0, n - 1), Extra::Palatalised)
            } else if last == SKERPING_MARKER {
                (s.substring_char(0, n - 1), Extra::Skerping)
            } else {
                (s, Extra::Nothing)
            }
        } else {
            (s, Extra::Nothing)
        };
        proof {
            assert(extra == spec_marker(s@));
            assert(t@ =~= spec_stripped(s@));
        }
        let m = t.unicode_len();
        let lp = find_char(t, '(');
        let rp = find_char(t, ')');
        proof {
            lemma_scan_is_index_of_first(t@, '(', lp);
            lemma_scan_is_index_of_first(t@, ')', rp);
        }
        if let (Some(i), Some(j)) = (lp, rp) {
            if i < j {
                let r = Root {
                    first_stem: t.substring_char(0, i).to_owned(),
                    deletable: t.substring_char(i + 1, j).to_owned(),
                    end: t.substring_char(j + 1, m).to_owned(),
                    extra,
                };
                proof {
                    assert(r@ =~= spec_parse(s@));
                }
                return r;
            }
        }
        let r = Root {
            first_stem: t.to_owned(),
            deletable: String::new(),
            end: String::new(),
            extra,
        };
        proof {
            assert(r@ =~= spec_parse(s@));
        }
        r
    }

    pub fn palatalised(&self) -> (b: bool)
        ensures
            b == self@.palatalised(),
    {
        matches!(self.extra, Extra::Palatalised)
    }

    pub fn skerping(&self) -> (b: bool)
        ensures
            b == self@.skerping(),
    {
        matches!(self.extra, Extra::Skerping)
    }

    /// True when rendering this root's stem forms is defined: a skerping
    /// root must end in a vowel with a mapped cluster. Roots parsed from
    /// citation forms written with the skerping marker after an unmapped
    /// final letter fail this; callers must not render such a root.
    pub fn skerping_ok(&self) -> (b: bool)
        ensures
            b == self@.cluster_ok(),
    {
        if !self.skerping() {
            return true;
        }
        let n = self.first_stem.as_str().unicode_len();
        if n == 0 {
            return false;
        }
        let c = self.first_stem.as_str().get_char(n - 1);
        crate::filters::skerping(c).is_some()
    }

    /// The citation form this root reconstructs to: the stem, the bracket
    /// segments when either is non-empty, then the marker glyph.
    pub fn citation(&self) -> (s: String)
        ensures
            s@ == spec_citation(self@),
    {
        let mut s = self.first_stem.clone();
        if !(self.deletable.as_str().is_empty() && self.end.as_str().is_empty()) {
            s.append("(");
            s.append(self.deletable.as_str());
            s.append(")");
            s.append(self.end.as_str());
        }
        match self.extra {
            Extra::Nothing => (),
            Extra::Palatalised => s.append("ʲ"),
            Extra::Skerping => s.append("ˠ"),
        }
        proof {
            assert(s@ =~= spec_citation(self@));
        }
        s
    }

    /// The debug-style rendering of this root: its citation form between
    /// backticks.
    pub fn notation(&self) -> (s: String)
        ensures
            s@ == spec_notation(self@),
    {
        let mut s = "`".to_owned();
        let c = self.citation();
        s.append(c.as_str());
        s.append("`");
        proof {
            assert(s@ =~= spec_notation(self@));
        }
        s
    }
}

/// The glyph a marker appends to the citation form.
pub open spec fn spec_marker_seq(e: Extra) -> Seq<char> {
    match e {
        Extra::Nothing => Seq::empty(),
        Extra::Palatalised => "ʲ"@,
        Extra::Skerping => "ˠ"@,
    }
}

/// The citation form a root reconstructs to.
pub open spec fn spec_citation(r: RootModel) -> Seq<char> {
    r.first_stem + (if r.deletable.len() > 0 || r.end.len() > 0 {
        "("@ + r.deletable + ")"@ + r.end
    } else {
        Seq::<char>::empty()
    }) + spec_marker_seq(r.extra)
}

/// A root's citation form between backticks.
pub open spec fn spec_notation(r: RootModel) -> Seq<char> {
    "`"@ + spec_citation(r) + "`"@
}

/// One-call boundary for embedding hosts: parses a citation string and
/// returns the parsed root's notation rendering.
pub fn parse_root(s: &str) -> (out: String)
    requires
        s@.len() + 8 <= usize::MAX,
    ensures
        out@ == spec_notation(spec_parse(s@)),
{
    Root::parse(s).notation()
}

/// Round-trip of markers: a root marked palatalised or skerping
/// reconstructs to a citation form that re-parses to the identical root.
/// The stem must be free of parentheses and the deletable segment free
/// of the closing one; a stem such as `a(b)c` with empty bracket
/// segments reconstructs to a citation form whose parentheses parse as
/// bracket notation, so those roots are left out.
pub proof fn lemma_marker_round_trip(r: RootModel)
    requires
        r.extra != Extra::Nothing,
        !r.first_stem.contains('('),
        !r.first_stem.contains(')'),
        !r.deletable.contains(')'),
    ensures
        spec_parse(spec_citation(r)) == r,
{
    reveal_strlit("ʲ");
    reveal_strlit("ˠ");
    reveal_strlit("(");
    reveal_strlit(")");
    let c = spec_citation(r);
    let a = r.first_stem;
    let d = r.deletable;
    let e = r.end;
    assert(spec_marker_seq(r.extra).len() == 1);
    assert(c.last() == spec_marker_seq(r.extra)[0]);
    assert(spec_marker(c) == r.extra);
    let t = spec_stripped(c);
    assert forall|j: int| 0 <= j < a.len() implies a[j] != '(' && a[j] != ')' by {
        if a[j] == '(' {
            assert(a.contains('('));
        }
        if a[j] == ')' {
            assert(a.contains(')'));
        }
    }
    if d.len() > 0 || e.len() > 0 {
        let la = a.len() as int;
        let rp = la + 1 + d.len() as int;
        assert(t =~= a + "("@ + d + ")"@ + e);
        assert(t[la] == '(');
        assert(t[rp] == ')');
        assert forall|j: int| 0 <= j < d.len() implies d[j] != ')' by {
            if d[j] == ')' {
                assert(d.contains(')'));
            }
        }
        assert(forall|j: int| 0 <= j < la ==> t[j] == a[j]);
        assert(forall|j: int| la < j < rp ==> t[j] == d[j - la - 1]);
        t.index_of_first_ensures('(');
        t.index_of_first_ensures(')');
        assert(t.contains('(')) by {
            assert(0 <= la < t.len() && t[la] == '(');
        }
        assert(t.contains(')')) by {
            assert(0 <= rp < t.len() && t[rp] == ')');
        }
        let lpi = t.index_of_first('(')->0;
        let rpi = t.index_of_first(')')->0;
        assert(lpi == la) by {
            if lpi < la {
                assert(t[lpi] == '(');
            }
            if lpi > la {
                assert(t[la] != '(');
            }
        }
        assert(rpi == rp) by {
            if rpi < rp {
                assert(t[rpi] == ')');
                assert(rpi != la);
            }
            if rpi > rp {
                assert(t[rp] != ')');
            }
        }
        assert(t.subrange(0, la) =~= a);
        assert(t.subrange(la + 1, rp) =~= d);
        assert(t.subrange(rp + 1, t.len() as int) =~= e);
        assert(spec_parse(c) =~= r);
    } else {
        assert(t =~= a);
        t.index_of_first_ensures('(');
        if t.index_of_first('(') is Some {
            assert(t.contains('('));
            let k = choose|k: int| 0 <= k < t.len() && t[k] == '(';
            assert(a[k] != '(');
        }
        assert(d =~= Seq::<char>::empty());
        assert(e =~= Seq::<char>::empty());
        assert(spec_parse(c) =~= r);
    }
}

} // verus!
