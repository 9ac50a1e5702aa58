//! Stem-form and inflection rendering: the three-way stem shapes, the
//! pairing of a stem shape with an ending, and space padding measured in
//! Unicode characters.

use vstd::prelude::*;
use crate::{Root, RootModel};

verus! {

/// `a - b`, floored at zero.
pub open spec fn sat_sub(a: nat, b: nat) -> nat {
    if a >= b {
        (a - b) as nat
    } else {
        0
    }
}

/// `s` followed by trailing spaces up to width `w`; unchanged when `w`
/// does not exceed its length. Width is a presentation hint, never a
/// truncation limit.
pub open spec fn spec_padded(s: Seq<char>, w: nat) -> Seq<char> {
    if s.len() >= w {
        s
    } else {
        s + Seq::new((w - s.len()) as nat, |i: int| ' ')
    }
}

/// Padding to any requested width keeps the content as a prefix and adds
/// only spaces after it; a width at or below the natural length changes
/// nothing.
pub proof fn lemma_padding_never_truncates(s: Seq<char>, w: nat)
    ensures
        spec_padded(s, w).len() == if w > s.len() {
            w
        } else {
            s.len()
        },
        spec_padded(s, w).subrange(0, s.len() as int) == s,
        forall|i: int|
            s.len() <= i < spec_padded(s, w).len() ==> spec_padded(s, w)[i] == ' ',
        w <= s.len() ==> spec_padded(s, w) == s,
{
    assert(spec_padded(s, w).subrange(0, s.len() as int) =~= s);
}

/// Pushing the padding inside: rendering `a` unpadded and then `b` padded
/// to the width that remains is the same as padding `a + b` as a whole.
proof fn lemma_padded_split(a: Seq<char>, b: Seq<char>, w: nat)
    ensures
        a + spec_padded(b, sat_sub(w, a.len())) == spec_padded(a + b, w),
{
    let w2 = sat_sub(w, a.len());
    if b.len() >= w2 {
        assert(a + b =~= spec_padded(a + b, w));
    } else {
        assert(a + (b + Seq::new((w2 - b.len()) as nat, |i: int| ' ')) =~= (a + b) + Seq::new(
            (w - (a.len() + b.len())) as nat,
            |i: int| ' ',
        ));
    }
}

/// Builds `e` followed by spaces up to width `w`.
pub(crate) fn pad_str(e: &str, w: usize) -> (s: String)
    ensures
        s@ == spec_padded(e@, w as nat),
{
    let n = e.unicode_len();
    let mut s = e.to_owned();
    let mut i = n;
    while i < w
        invariant
            n == e@.len(),
            n <= i,
            i <= w || i == n,
            s@ == spec_padded(e@, i as nat),
        decreases w - i,
    {
        s.append(" ");
        proof {
            reveal_strlit(" ");
            assert(" "@ =~= seq![' ']);
            assert(spec_padded(e@, (i + 1) as nat) =~= spec_padded(e@, i as nat) + seq![' ']);
        }
        i += 1;
    }
    proof {
        if w <= n {
            assert(spec_padded(e@, w as nat) =~= e@);
        }
    }
    s
}

/// The three stem-rendering modes: the citation shape, the shape before a
/// consonant-initial ending, and the shape before a vowel-initial ending.
#[derive(Debug, Clone, Copy)]
pub enum Form {
    Full,
    ConsonantAdded,
    VowelAdded,
}

/// The mathematical model of a [`RootForm`].
#[verifier::ext_equal]
pub ghost struct RootFormModel {
    pub root: RootModel,
    pub form: Form,
    pub drop_yod: bool,
}

impl RootFormModel {
    /// The stem tail standing between `first_stem` and `end`: skerping
    /// roots insert their cluster before vowel-initial continuations and
    /// resurface the deletable vowel before consonant-initial ones;
    /// other roots keep the deletable vowel except before a vowel.
    pub open spec fn tail(self) -> Seq<char> {
        match (self.form, self.root.skerping()) {
            (Form::Full, true) => self.root.cluster(self.drop_yod),
            (Form::VowelAdded, true) => self.root.cluster(self.drop_yod),
            (Form::ConsonantAdded, true) => self.root.deletable,
            (Form::Full, false) => self.root.deletable,
            (Form::ConsonantAdded, false) => self.root.deletable,
            (Form::VowelAdded, false) => Seq::empty(),
        }
    }

    /// The characters this stem form renders to, at its natural width.
    pub open spec fn chars(self) -> Seq<char> {
        self.root.first_stem + self.tail() + self.root.end
    }

    /// Character count, computed by the same case split the renderer
    /// uses; [`lemma_count_matches_chars`] shows the two agree.
    pub open spec fn count(self) -> nat {
        self.root.first_stem.len() + self.root.end.len() + match (self.form,
        self.root.skerping()) {
            (Form::Full, true) => self.root.cluster(self.drop_yod).len(),
            (Form::VowelAdded, true) => self.root.cluster(self.drop_yod).len(),
            (Form::ConsonantAdded, true) => self.root.deletable.len(),
            (Form::Full, false) => self.root.deletable.len(),
            (Form::ConsonantAdded, false) => self.root.deletable.len(),
            (Form::VowelAdded, false) => 0,
        }
    }
}

/// The reported character count of a stem form equals the length of what
/// it renders.
pub proof fn lemma_count_matches_chars(f: RootFormModel)
    ensures
        f.count() == f.chars().len(),
{
}

/// A skerping cluster has at most three characters, at least one after
/// dropping the yod.
pub proof fn lemma_cluster_len(r: RootModel, drop_yod: bool)
    requires
        r.skerping(),
        r.cluster_ok(),
    ensures
        1 <= r.cluster(drop_yod).len() <= 3,
{
    reveal_strlit("gv");
    reveal_strlit("ggj");
}

/// A stem form's count stays within three characters of the root's
/// segment total.
pub proof fn lemma_count_bound(f: RootFormModel)
    requires
        f.root.cluster_ok(),
    ensures
        f.count() <= f.root.seg_len() + 3,
{
    if f.root.skerping() {
        lemma_cluster_len(f.root, f.drop_yod);
    }
}

/// A read-only view over a [`Root`] selecting one stem-rendering mode,
/// with an optional yod-suppression flag; computed on demand and never
/// stored.
#[derive(Debug, Clone, Copy)]
pub struct RootForm<'a> {
    pub root: &'a Root,
    pub form: Form,
    pub drop_yod: bool,
}

impl<'a> View for RootForm<'a> {
    type V = RootFormModel;

    open spec fn view(&self) -> RootFormModel {
        RootFormModel { root: self.root@, form: self.form, drop_yod: self.drop_yod }
    }
}

impl Root {
    /// The citation/uninflected stem shape.
    pub fn full<'r>(&'r self) -> (f: RootForm<'r>)
        ensures
            f@ == (RootFormModel { root: self@, form: Form::Full, drop_yod: false }),
    {
        RootForm::new(self, Form::Full)
    }

    /// The stem shape used when a consonant-initial ending attaches.
    pub fn consonanted<'r>(&'r self) -> (f: RootForm<'r>)
        ensures
            f@ == (RootFormModel { root: self@, form: Form::ConsonantAdded, drop_yod: false }),
    {
        RootForm::new(self, Form::ConsonantAdded)
    }

    /// The stem shape used when a vowel-initial ending attaches.
    pub fn vowelled<'r>(&'r self) -> (f: RootForm<'r>)
        ensures
            f@ == (RootFormModel { root: self@, form: Form::VowelAdded, drop_yod: false }),
    {
        RootForm::new(self, Form::VowelAdded)
    }
}

impl<'a> RootForm<'a> {
    fn new(root: &'a Root, form: Form) -> (f: Self)
        ensures
            f@ == (RootFormModel { root: root@, form: form, drop_yod: false }),
    {
        RootForm { root, form, drop_yod: false }
    }

    /// Always strips the trailing yod from a skerping cluster (the glide
    /// never surfaces in the dative singular).
    pub fn drop_yod(self) -> (f: Self)
        ensures
            f@ == (RootFormModel { root: self@.root, form: self@.form, drop_yod: true }),
    {
        RootForm { drop_yod: true, ..self }
    }

    /// Strips the yod only for roots additionally marked palatalised
    /// (the glide's presence in plural endings depends on the root's
    /// historically palatal final consonant).
    pub fn drop_yod_if_palatalised(self) -> (f: Self)
        ensures
            f@ == (RootFormModel {
                root: self@.root,
                form: self@.form,
                drop_yod: self@.root.palatalised(),
            }),
    {
        RootForm { drop_yod: self.root.palatalised(), ..self }
    }

    /// The cluster this skerping root inserts, yod-dropped as requested.
    fn skerping(&self) -> (s: &'static str)
        requires
            self@.root.skerping(),
            self@.root.cluster_ok(),
        ensures
            s@ == self@.root.cluster(self@.drop_yod),
    {
        let n = self.root.first_stem.as_str().unicode_len();
        let c = self.root.first_stem.as_str().get_char(n - 1);
        let full: &'static str = match crate::filters::skerping(c) {
            Some(cl) => cl,
            None => "",
        };
        proof {
            reveal_strlit("gv");
            reveal_strlit("ggj");
            reveal_strlit("gg");
        }
        if self.drop_yod && (c == 'í' || c == 'ý' || c == 'y' || c == 'i') {
            proof {
                assert("gg"@ =~= "ggj"@.drop_last());
            }
            "gg"
        } else {
            full
        }
    }

    /// The stem tail after `first_stem`, as a borrowed slice.
    fn tail_str(&self) -> (t: &'a str)
        requires
            self@.root.cluster_ok(),
        ensures
            t@ == self@.tail(),
    {
        let t: &'a str = match (self.form, self.root.skerping()) {
            (Form::Full, true) => self.skerping(),
            (Form::VowelAdded, true) => self.skerping(),
            (Form::ConsonantAdded, true) => self.root.deletable.as_str(),
            (Form::Full, false) => self.root.deletable.as_str(),
            (Form::ConsonantAdded, false) => self.root.deletable.as_str(),
            (Form::VowelAdded, false) => "",
        };
        proof {
            reveal_strlit("");
            assert(""@ =~= Seq::<char>::empty());
        }
        t
    }

    /// Renders this stem form, right-padded with trailing spaces to
    /// `width` characters when shorter; never truncated.
    pub fn render(&self, width: usize) -> (s: String)
        requires
            self@.root.wf(),
        ensures
            s@ == spec_padded(self@.chars(), width as nat),
    {
        let mut s = self.root.first_stem.clone();
        let stem_n = self.root.first_stem.as_str().unicode_len();
        let w1 = if width > stem_n {
            width - stem_n
        } else {
            0
        };
        let tail = self.tail_str();
        s.append(tail);
        let tail_n = tail.unicode_len();
        let w2 = if w1 > tail_n {
            w1 - tail_n
        } else {
            0
        };
        let e = pad_str(self.root.end.as_str(), w2);
        s.append(e.as_str());
        proof {
            lemma_padded_split(self@.root.first_stem + self@.tail(), self@.root.end, width as nat);
            assert(s@ =~= spec_padded(self@.chars(), width as nat));
        }
        s
    }
}

/// The mathematical model of an [`Inflection`].
#[verifier::ext_equal]
pub ghost struct InflectionModel {
    pub stem: RootFormModel,
    pub ending: Seq<char>,
}

impl InflectionModel {
    /// The characters this inflection renders to, at its natural width.
    pub open spec fn chars(self) -> Seq<char> {
        self.stem.chars() + self.ending
    }

    pub open spec fn count(self) -> nat {
        self.stem.count() + self.ending.len()
    }

    /// Valid for rendering: the root is well-formed and the ending is no
    /// longer than the longest declension ending.
    pub open spec fn wf(self) -> bool {
        self.stem.root.wf() && self.ending.len() <= 5
    }
}

/// The reported character count of an inflection equals the length of
/// what it renders.
pub proof fn lemma_inflection_count_matches_chars(i: InflectionModel)
    ensures
        i.count() == i.chars().len(),
{
}

/// A stem form paired with a fixed ending: one grammatical slot's
/// surface shape, constructed per slot and consumed by the table
/// renderer.
#[derive(Clone)]
pub struct Inflection<'a> {
    pub r: RootForm<'a>,
    pub e: &'a str,
}

impl<'a> View for Inflection<'a> {
    type V = InflectionModel;

    open spec fn view(&self) -> InflectionModel {
        InflectionModel { stem: self.r@, ending: self.e@ }
    }
}

impl<'a> Inflection<'a> {
    pub fn new(r: RootForm<'a>, e: &'a str) -> (i: Self)
        ensures
            i@ == (InflectionModel { stem: r@, ending: e@ }),
    {
        Inflection { r, e }
    }

    /// Renders the stem at its natural width, then the ending padded to
    /// fill whatever of `width` remains.
    pub fn render(&self, width: usize) -> (s: String)
        requires
            self@.wf(),
        ensures
            s@ == spec_padded(self@.chars(), width as nat),
    {
        let stem_n = self.r.char_count();
        let mut s = self.r.render(0);
        let rest = if width > stem_n {
            width - stem_n
        } else {
            0
        };
        let e = pad_str(self.e, rest);
        s.append(e.as_str());
        proof {
            lemma_count_matches_chars(self@.stem);
            lemma_padded_split(self@.stem.chars(), self@.ending, width as nat);
            assert(s@ =~= spec_padded(self@.chars(), width as nat));
        }
        s
    }
}

/// A renderable word shape that knows its own character count, for
/// column alignment.
pub trait WordForm {
    /// The characters the value renders to at its natural width.
    spec fn view_chars(&self) -> Seq<char>;

    /// When the count may be taken (for stem shapes, well-formedness of
    /// the underlying root).
    spec fn countable(&self) -> bool;

    /// The number of Unicode characters rendered, not bytes.
    fn char_count(&self) -> (n: usize)
        requires
            self.countable(),
        ensures
            n == self.view_chars().len(),
    ;
}

impl WordForm for str {
    open spec fn view_chars(&self) -> Seq<char> {
        self@
    }

    open spec fn countable(&self) -> bool {
        true
    }

    fn char_count(&self) -> (n: usize) {
        self.unicode_len()
    }
}

impl WordForm for String {
    open spec fn view_chars(&self) -> Seq<char> {
        self@
    }

    open spec fn countable(&self) -> bool {
        true
    }

    fn char_count(&self) -> (n: usize) {
        self.as_str().unicode_len()
    }
}

impl<'a> WordForm for RootForm<'a> {
    open spec fn view_chars(&self) -> Seq<char> {
        self@.chars()
    }

    open spec fn countable(&self) -> bool {
        self@.root.wf()
    }

    fn char_count(&self) -> (n: usize) {
        let l = self.root.first_stem.as_str().unicode_len() + self.root.end.as_str().unicode_len();
        proof {
            lemma_count_matches_chars(self@);
            if self@.root.skerping() {
                lemma_cluster_len(self@.root, self@.drop_yod);
            }
        }
        match (self.form, self.root.skerping()) {
            (Form::Full, true) => l + self.skerping().unicode_len(),
            (Form::VowelAdded, true) => l + self.skerping().unicode_len(),
            (Form::ConsonantAdded, true) => l + self.root.deletable.as_str().unicode_len(),
            (Form::Full, false) => l + self.root.deletable.as_str().unicode_len(),
            (Form::ConsonantAdded, false) => l + self.root.deletable.as_str().unicode_len(),
            (Form::VowelAdded, false) => l,
        }
    }
}

impl<'a> WordForm for Inflection<'a> {
    open spec fn view_chars(&self) -> Seq<char> {
        self@.chars()
    }

    open spec fn countable(&self) -> bool {
        self@.wf()
    }

    fn char_count(&self) -> (n: usize) {
        proof {
            lemma_count_bound(self@.stem);
            lemma_count_matches_chars(self@.stem);
            lemma_inflection_count_matches_chars(self@);
        }
        self.r.char_count() + self.e.char_count()
    }
}

} // verus!
