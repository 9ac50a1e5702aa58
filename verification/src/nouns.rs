//! Declension classes and the table renderer: the `Noun` capability set
//! with one operation per grammatical slot, the fixed masculine and
//! neuter classes, the parameterized general masculine class, and the
//! aligned grid of all eight forms.

use vstd::prelude::*;
use crate::{Root, RootModel, spec_notation, spec_parse};
use crate::forms::{
    Form, Inflection, InflectionModel, RootFormModel, WordForm, pad_str, spec_padded,
};

verus! {

/// One slot's inflection: the given stem mode and yod policy with a
/// fixed ending.
pub open spec fn spec_slot(r: RootModel, form: Form, drop_yod: bool, ending: Seq<char>) -> InflectionModel {
    InflectionModel {
        stem: RootFormModel { root: r, form: form, drop_yod: drop_yod },
        ending: ending,
    }
}

/// Masculine nominative singular: the full stem, with `ur` when the
/// deletable vowel is empty or the root is skerping, bare otherwise.
pub open spec fn spec_masc_nom_sg(r: RootModel) -> InflectionModel {
    spec_slot(
        r,
        Form::Full,
        false,
        if r.deletable.len() == 0 || r.skerping() {
            "ur"@
        } else {
            ""@
        },
    )
}

/// Accusative singular (and neuter nominative singular): the bare full
/// stem.
pub open spec fn spec_acc_sg(r: RootModel) -> InflectionModel {
    spec_slot(r, Form::Full, false, ""@)
}

/// Dative singular: the vowel-added stem with the yod dropped, ending
/// `i`.
pub open spec fn spec_dat_sg(r: RootModel) -> InflectionModel {
    spec_slot(r, Form::VowelAdded, true, "i"@)
}

/// Genitive singular in `s`: the consonant-added stem.
pub open spec fn spec_gen_sg_s(r: RootModel) -> InflectionModel {
    spec_slot(r, Form::ConsonantAdded, false, "s"@)
}

/// Genitive singular or nominative plural in `ar`: the vowel-added stem,
/// with the glide `j` before the ending for palatalised roots.
pub open spec fn spec_ar_slot(r: RootModel) -> InflectionModel {
    spec_slot(
        r,
        Form::VowelAdded,
        r.palatalised(),
        if r.palatalised() {
            "jar"@
        } else {
            "ar"@
        },
    )
}

/// Nominative plural in `ir`: the vowel-added stem with the yod dropped.
pub open spec fn spec_pl_ir(r: RootModel) -> InflectionModel {
    spec_slot(r, Form::VowelAdded, true, "ir"@)
}

/// Neuter nominative plural: the full stem, with the historical u-umlaut
/// marked `(r)` when the deletable vowel is exactly `i`.
pub open spec fn spec_neuter_nom_pl(r: RootModel) -> InflectionModel {
    spec_slot(
        r,
        Form::Full,
        false,
        if r.deletable == "i"@ {
            "(r)"@
        } else {
            ""@
        },
    )
}

/// Default dative plural: the vowel-added stem with the yod kept only
/// for non-palatalised roots, ending `jum` when palatalised and `um`
/// otherwise.
pub open spec fn spec_dat_pl_default(r: RootModel) -> InflectionModel {
    spec_slot(
        r,
        Form::VowelAdded,
        r.palatalised(),
        if r.palatalised() {
            "jum"@
        } else {
            "um"@
        },
    )
}

/// Default genitive plural: as the dative plural, with endings `ja`/`a`.
pub open spec fn spec_gen_pl_default(r: RootModel) -> InflectionModel {
    spec_slot(
        r,
        Form::VowelAdded,
        r.palatalised(),
        if r.palatalised() {
            "ja"@
        } else {
            "a"@
        },
    )
}

/// The default plural slots are fit for rendering whenever the root is.
pub proof fn lemma_default_slots_wf(r: RootModel)
    requires
        r.wf(),
    ensures
        spec_dat_pl_default(r).wf(),
        spec_gen_pl_default(r).wf(),
{
    reveal_strlit("jum");
    reveal_strlit("um");
    reveal_strlit("ja");
    reveal_strlit("a");
}

/// The capability set of a declension class: one operation per
/// grammatical slot, each a total function of the root. The three
/// slots with generic defaults carry the default as their contract:
/// the accusative plural equals the nominative plural, and the dative
/// and genitive plurals follow the fixed default rules.
pub trait Noun: Sized {
    spec fn nom_sg_spec(&self, r: RootModel) -> InflectionModel;

    spec fn acc_sg_spec(&self, r: RootModel) -> InflectionModel;

    spec fn dat_sg_spec(&self, r: RootModel) -> InflectionModel;

    spec fn gen_sg_spec(&self, r: RootModel) -> InflectionModel;

    spec fn nom_pl_spec(&self, r: RootModel) -> InflectionModel;

    /// Whether the genitive-singular rule is implemented for this class.
    spec fn gen_sg_defined(&self) -> bool;

    /// Every slot of a well-formed root is fit for rendering.
    proof fn slots_wf(&self, r: RootModel)
        requires
            r.wf(),
        ensures
            self.nom_sg_spec(r).wf(),
            self.acc_sg_spec(r).wf(),
            self.dat_sg_spec(r).wf(),
            self.gen_sg_defined() ==> self.gen_sg_spec(r).wf(),
            self.nom_pl_spec(r).wf(),
    ;

    fn parse(&self, dictionary_form: &str) -> (r: Root)
        requires
            dictionary_form@.len() + 8 <= usize::MAX,
        ensures
            r@ == spec_parse(dictionary_form@),
            r@.fits(),
    {
        Root::parse(dictionary_form)
    }

    fn nom_sg<'r>(&self, r: &'r Root) -> (i: Inflection<'r>)
        ensures
            i@ == self.nom_sg_spec(r@),
    ;

    fn acc_sg<'r>(&self, r: &'r Root) -> (i: Inflection<'r>)
        ensures
            i@ == self.acc_sg_spec(r@),
    ;

    fn dat_sg<'r>(&self, r: &'r Root) -> (i: Inflection<'r>)
        ensures
            i@ == self.dat_sg_spec(r@),
    ;

    fn gen_sg<'r>(&self, r: &'r Root) -> (i: Inflection<'r>)
        requires
            self.gen_sg_defined(),
        ensures
            i@ == self.gen_sg_spec(r@),
    ;

    fn nom_pl<'r>(&self, r: &'r Root) -> (i: Inflection<'r>)
        ensures
            i@ == self.nom_pl_spec(r@),
    ;

    /// The accusative plural defaults to the nominative plural.
    fn acc_pl<'r>(&self, r: &'r Root) -> (i: Inflection<'r>)
        ensures
            i@ == self.nom_pl_spec(r@),
    {
        self.nom_pl(r)
    }

    /// The dative plural follows the fixed default rule.
    fn dat_pl<'r>(&self, r: &'r Root) -> (i: Inflection<'r>)
        ensures
            i@ == spec_dat_pl_default(r@),
    {
        Inflection::new(
            r.vowelled().drop_yod_if_palatalised(),
            if r.palatalised() {
                "jum"
            } else {
                "um"
            },
        )
    }

    /// The genitive plural follows the fixed default rule.
    fn gen_pl<'r>(&self, r: &'r Root) -> (i: Inflection<'r>)
        ensures
            i@ == spec_gen_pl_default(r@),
    {
        Inflection::new(
            r.vowelled().drop_yod_if_palatalised(),
            if r.palatalised() {
                "ja"
            } else {
                "a"
            },
        )
    }
}

/// How a masculine noun forms its genitive singular. `Both` stands for
/// nouns with two co-existing genitive forms and is not yet supported.
#[derive(Debug, Clone, Copy)]
pub enum MasculineGenitive {
    S,
    Ar,
    Both,
}

/// How a masculine noun forms its nominative plural.
#[derive(Debug, Clone, Copy)]
pub enum MasculinePlural {
    Ar,
    Ir,
}

/// How a masculine noun forms its dative singular.
#[derive(Debug, Clone, Copy)]
pub enum MasculineDative {
    I,
    Both,
    Absent,
}

/// The general masculine class, parameterized on its genitive and plural
/// choice points; subsumes the three fixed masculine classes.
pub struct Masculine(pub MasculineGenitive, pub MasculinePlural, pub MasculineDative);

impl Noun for Masculine {
    open spec fn nom_sg_spec(&self, r: RootModel) -> InflectionModel {
        spec_masc_nom_sg(r)
    }

    open spec fn acc_sg_spec(&self, r: RootModel) -> InflectionModel {
        spec_acc_sg(r)
    }

    open spec fn dat_sg_spec(&self, r: RootModel) -> InflectionModel {
        spec_dat_sg(r)
    }

    open spec fn gen_sg_spec(&self, r: RootModel) -> InflectionModel {
        match self.0 {
            MasculineGenitive::S => spec_gen_sg_s(r),
            MasculineGenitive::Ar => spec_ar_slot(r),
            MasculineGenitive::Both => arbitrary(),
        }
    }

    open spec fn nom_pl_spec(&self, r: RootModel) -> InflectionModel {
        match self.1 {
            MasculinePlural::Ar => spec_ar_slot(r),
            MasculinePlural::Ir => spec_pl_ir(r),
        }
    }

    open spec fn gen_sg_defined(&self) -> bool {
        !(self.0 is Both)
    }

    proof fn slots_wf(&self, r: RootModel) {
        reveal_strlit("ur");
        reveal_strlit("");
        reveal_strlit("i");
        reveal_strlit("s");
        reveal_strlit("jar");
        reveal_strlit("ar");
        reveal_strlit("ir");
    }

    fn nom_sg<'r>(&self, r: &'r Root) -> (i: Inflection<'r>) {
        Inflection::new(
            r.full(),
            if r.deletable.as_str().is_empty() || r.skerping() {
                "ur"
            } else {
                ""
            },
        )
    }

    fn acc_sg<'r>(&self, r: &'r Root) -> (i: Inflection<'r>) {
        Inflection::new(r.full(), "")
    }

    fn dat_sg<'r>(&self, r: &'r Root) -> (i: Inflection<'r>) {
        Inflection::new(r.vowelled().drop_yod(), "i")
    }

    fn gen_sg<'r>(&self, r: &'r Root) -> (i: Inflection<'r>) {
        match self.0 {
            MasculineGenitive::S => Inflection::new(r.consonanted(), "s"),
            MasculineGenitive::Ar => Inflection::new(
                r.vowelled().drop_yod_if_palatalised(),
                if r.palatalised() {
                    "jar"
                } else {
                    "ar"
                },
            ),
            MasculineGenitive::Both => unreached(),
        }
    }

    fn nom_pl<'r>(&self, r: &'r Root) -> (i: Inflection<'r>) {
        match self.1 {
            MasculinePlural::Ar => Inflection::new(
                r.vowelled().drop_yod_if_palatalised(),
                if r.palatalised() {
                    "jar"
                } else {
                    "ar"
                },
            ),
            MasculinePlural::Ir => Inflection::new(r.vowelled().drop_yod(), "ir"),
        }
    }
}

/// Fixed masculine class: genitive in `s`, nominative plural in `ar`.
pub struct MascSAr;

impl Noun for MascSAr {
    open spec fn nom_sg_spec(&self, r: RootModel) -> InflectionModel {
        spec_masc_nom_sg(r)
    }

    open spec fn acc_sg_spec(&self, r: RootModel) -> InflectionModel {
        spec_acc_sg(r)
    }

    open spec fn dat_sg_spec(&self, r: RootModel) -> InflectionModel {
        spec_dat_sg(r)
    }

    open spec fn gen_sg_spec(&self, r: RootModel) -> InflectionModel {
        spec_gen_sg_s(r)
    }

    open spec fn nom_pl_spec(&self, r: RootModel) -> InflectionModel {
        spec_ar_slot(r)
    }

    open spec fn gen_sg_defined(&self) -> bool {
        true
    }

    proof fn slots_wf(&self, r: RootModel) {
        reveal_strlit("ur");
        reveal_strlit("");
        reveal_strlit("i");
        reveal_strlit("s");
        reveal_strlit("jar");
        reveal_strlit("ar");
    }

    fn nom_sg<'r>(&self, r: &'r Root) -> (i: Inflection<'r>) {
        Inflection::new(
            r.full(),
            if r.deletable.as_str().is_empty() || r.skerping() {
                "ur"
            } else {
                ""
            },
        )
    }

    fn acc_sg<'r>(&self, r: &'r Root) -> (i: Inflection<'r>) {
        Inflection::new(r.full(), "")
    }

    fn dat_sg<'r>(&self, r: &'r Root) -> (i: Inflection<'r>) {
        Inflection::new(r.vowelled().drop_yod(), "i")
    }

    fn gen_sg<'r>(&self, r: &'r Root) -> (i: Inflection<'r>) {
        Inflection::new(r.consonanted(), "s")
    }

    fn nom_pl<'r>(&self, r: &'r Root) -> (i: Inflection<'r>) {
        Inflection::new(
            r.vowelled().drop_yod_if_palatalised(),
            if r.palatalised() {
                "jar"
            } else {
                "ar"
            },
        )
    }
}

/// Fixed masculine class: genitive in `ar`, nominative plural in `ir`.
pub struct MascArIr;

impl Noun for MascArIr {
    open spec fn nom_sg_spec(&self, r: RootModel) -> InflectionModel {
        spec_masc_nom_sg(r)
    }

    open spec fn acc_sg_spec(&self, r: RootModel) -> InflectionModel {
        spec_acc_sg(r)
    }

    open spec fn dat_sg_spec(&self, r: RootModel) -> InflectionModel {
        spec_dat_sg(r)
    }

    open spec fn gen_sg_spec(&self, r: RootModel) -> InflectionModel {
        spec_ar_slot(r)
    }

    open spec fn nom_pl_spec(&self, r: RootModel) -> InflectionModel {
        spec_pl_ir(r)
    }

    open spec fn gen_sg_defined(&self) -> bool {
        true
    }

    proof fn slots_wf(&self, r: RootModel) {
        reveal_strlit("ur");
        reveal_strlit("");
        reveal_strlit("i");
        reveal_strlit("jar");
        reveal_strlit("ar");
        reveal_strlit("ir");
    }

    fn nom_sg<'r>(&self, r: &'r Root) -> (i: Inflection<'r>) {
        Inflection::new(
            r.full(),
            if r.deletable.as_str().is_empty() || r.skerping() {
                "ur"
            } else {
                ""
            },
        )
    }

    fn acc_sg<'r>(&self, r: &'r Root) -> (i: Inflection<'r>) {
        Inflection::new(r.full(), "")
    }

    fn dat_sg<'r>(&self, r: &'r Root) -> (i: Inflection<'r>) {
        Inflection::new(r.vowelled().drop_yod(), "i")
    }

    fn gen_sg<'r>(&self, r: &'r Root) -> (i: Inflection<'r>) {
        Inflection::new(
            r.vowelled().drop_yod_if_palatalised(),
            if r.palatalised() {
                "jar"
            } else {
                "ar"
            },
        )
    }

    fn nom_pl<'r>(&self, r: &'r Root) -> (i: Inflection<'r>) {
        Inflection::new(r.vowelled().drop_yod(), "ir")
    }
}

/// Fixed masculine class: genitive in `s`, nominative plural in `ir`.
pub struct MascSIr;

impl Noun for MascSIr {
    open spec fn nom_sg_spec(&self, r: RootModel) -> InflectionModel {
        spec_masc_nom_sg(r)
    }

    open spec fn acc_sg_spec(&self, r: RootModel) -> InflectionModel {
        spec_acc_sg(r)
    }

    open spec fn dat_sg_spec(&self, r: RootModel) -> InflectionModel {
        spec_dat_sg(r)
    }

    open spec fn gen_sg_spec(&self, r: RootModel) -> InflectionModel {
        spec_gen_sg_s(r)
    }

    open spec fn nom_pl_spec(&self, r: RootModel) -> InflectionModel {
        spec_pl_ir(r)
    }

    open spec fn gen_sg_defined(&self) -> bool {
        true
    }

    proof fn slots_wf(&self, r: RootModel) {
        reveal_strlit("ur");
        reveal_strlit("");
        reveal_strlit("i");
        reveal_strlit("s");
        reveal_strlit("ir");
    }

    fn nom_sg<'r>(&self, r: &'r Root) -> (i: Inflection<'r>) {
        Inflection::new(
            r.full(),
            if r.deletable.as_str().is_empty() || r.skerping() {
                "ur"
            } else {
                ""
            },
        )
    }

    fn acc_sg<'r>(&self, r: &'r Root) -> (i: Inflection<'r>) {
        Inflection::new(r.full(), "")
    }

    fn dat_sg<'r>(&self, r: &'r Root) -> (i: Inflection<'r>) {
        Inflection::new(r.vowelled().drop_yod(), "i")
    }

    fn gen_sg<'r>(&self, r: &'r Root) -> (i: Inflection<'r>) {
        Inflection::new(r.consonanted(), "s")
    }

    fn nom_pl<'r>(&self, r: &'r Root) -> (i: Inflection<'r>) {
        Inflection::new(r.vowelled().drop_yod(), "ir")
    }
}

/// The neuter class: bare full stem in the nominative and accusative,
/// with the u-umlaut `(r)` marker in the plural when the deletable vowel
/// is `i`.
pub struct Neuter;

impl Noun for Neuter {
    open spec fn nom_sg_spec(&self, r: RootModel) -> InflectionModel {
        spec_acc_sg(r)
    }

    open spec fn acc_sg_spec(&self, r: RootModel) -> InflectionModel {
        spec_acc_sg(r)
    }

    open spec fn dat_sg_spec(&self, r: RootModel) -> InflectionModel {
        spec_dat_sg(r)
    }

    open spec fn gen_sg_spec(&self, r: RootModel) -> InflectionModel {
        spec_gen_sg_s(r)
    }

    open spec fn nom_pl_spec(&self, r: RootModel) -> InflectionModel {
        spec_neuter_nom_pl(r)
    }

    open spec fn gen_sg_defined(&self) -> bool {
        true
    }

    proof fn slots_wf(&self, r: RootModel) {
        reveal_strlit("");
        reveal_strlit("i");
        reveal_strlit("s");
        reveal_strlit("(r)");
    }

    fn nom_sg<'r>(&self, r: &'r Root) -> (i: Inflection<'r>) {
        Inflection::new(r.full(), "")
    }

    fn acc_sg<'r>(&self, r: &'r Root) -> (i: Inflection<'r>) {
        Inflection::new(r.full(), "")
    }

    fn dat_sg<'r>(&self, r: &'r Root) -> (i: Inflection<'r>) {
        Inflection::new(r.vowelled().drop_yod(), "i")
    }

    fn gen_sg<'r>(&self, r: &'r Root) -> (i: Inflection<'r>) {
        Inflection::new(r.consonanted(), "s")
    }

    fn nom_pl<'r>(&self, r: &'r Root) -> (i: Inflection<'r>) {
        let d = r.deletable.as_str();
        let is_i = d.unicode_len() == 1 && d.get_char(0) == 'i';
        proof {
            reveal_strlit("i");
            if is_i {
                assert(d@ =~= "i"@);
            } else {
                if r@.deletable == "i"@ {
                    assert(d@.len() == 1);
                    assert(d@[0] == 'i');
                }
            }
        }
        Inflection::new(
            r.full(),
            if is_i {
                "(r)"
            } else {
                ""
            },
        )
    }
}

/// The larger of two widths.
pub open spec fn max2(a: nat, b: nat) -> nat {
    if a >= b {
        a
    } else {
        b
    }
}

fn max_usize(a: usize, b: usize) -> (m: usize)
    ensures
        m as nat == max2(a as nat, b as nat),
{
    if a >= b {
        a
    } else {
        b
    }
}

/// The singular column's width: the widest of the four singular cells
/// and the `sg` header.
pub open spec fn spec_sg_width<N: Noun>(n: N, r: RootModel) -> nat {
    max2(
        max2(
            max2(n.nom_sg_spec(r).count(), n.acc_sg_spec(r).count()),
            max2(n.dat_sg_spec(r).count(), n.gen_sg_spec(r).count()),
        ),
        "sg"@.len(),
    )
}

/// The plural column's width: the widest of the four plural cells (the
/// accusative plural being the nominative plural) and the `pl` header.
pub open spec fn spec_pl_width<N: Noun>(n: N, r: RootModel) -> nat {
    max2(
        max2(
            max2(n.nom_pl_spec(r).count(), n.nom_pl_spec(r).count()),
            max2(spec_dat_pl_default(r).count(), spec_gen_pl_default(r).count()),
        ),
        "pl"@.len(),
    )
}

/// One grid row: a four-character label, then each cell padded to its
/// column's width, between vertical bars.
#[verifier::opaque]
pub open spec fn spec_row(
    label: Seq<char>,
    sg_cell: Seq<char>,
    sgw: nat,
    pl_cell: Seq<char>,
    plw: nat,
) -> Seq<char> {
    label + "| "@ + spec_padded(sg_cell, sgw) + " | "@ + spec_padded(pl_cell, plw) + " |\n"@
}

/// The rendered grid: the header row, then the four case rows.
pub open spec fn spec_table<N: Noun>(n: N, r: RootModel) -> Seq<char> {
    let sgw = spec_sg_width(n, r);
    let plw = spec_pl_width(n, r);
    spec_row("    "@, "sg"@, sgw, "pl"@, plw) + spec_row(
        "nom "@,
        n.nom_sg_spec(r).chars(),
        sgw,
        n.nom_pl_spec(r).chars(),
        plw,
    ) + spec_row("acc "@, n.acc_sg_spec(r).chars(), sgw, n.nom_pl_spec(r).chars(), plw)
        + spec_row("dat "@, n.dat_sg_spec(r).chars(), sgw, spec_dat_pl_default(r).chars(), plw)
        + spec_row("gen "@, n.gen_sg_spec(r).chars(), sgw, spec_gen_pl_default(r).chars(), plw)
}

/// Appends one grid row to `out`.
fn push_row(
    out: &mut String,
    label: &str,
    sg_cell: &Inflection<'_>,
    sgw: usize,
    pl_cell: &Inflection<'_>,
    plw: usize,
)
    requires
        sg_cell@.wf(),
        pl_cell@.wf(),
    ensures
        final(out)@ == old(out)@ + spec_row(
            label@,
            sg_cell@.chars(),
            sgw as nat,
            pl_cell@.chars(),
            plw as nat,
        ),
{
    out.append(label);
    out.append("| ");
    let c1 = sg_cell.render(sgw);
    out.append(c1.as_str());
    out.append(" | ");
    let c2 = pl_cell.render(plw);
    out.append(c2.as_str());
    out.append(" |\n");
    proof {
        reveal(spec_row);
        assert(out@ =~= old(out)@ + spec_row(
            label@,
            sg_cell@.chars(),
            sgw as nat,
            pl_cell@.chars(),
            plw as nat,
        ));
    }
}

/// Appends the header row to `out`.
fn push_header(out: &mut String, sgw: usize, plw: usize)
    ensures
        final(out)@ == old(out)@ + spec_row("    "@, "sg"@, sgw as nat, "pl"@, plw as nat),
{
    out.append("    ");
    out.append("| ");
    let h1 = pad_str("sg", sgw);
    out.append(h1.as_str());
    out.append(" | ");
    let h2 = pad_str("pl", plw);
    out.append(h2.as_str());
    out.append(" |\n");
    proof {
        reveal(spec_row);
        assert(out@ =~= old(out)@ + spec_row("    "@, "sg"@, sgw as nat, "pl"@, plw as nat));
    }
}

/// A root paired with a declension class, renderable as the fixed grid
/// of its eight case/number forms.
pub struct Table<'a, N>(pub &'a Root, pub N);

impl<'a, N: Noun> Table<'a, N> {
    /// Renders the aligned grid; with `with_root` the root's notation
    /// line comes first.
    pub fn render(&self, with_root: bool) -> (s: String)
        requires
            self.0@.wf(),
            self.1.gen_sg_defined(),
        ensures
            s@ == (if with_root {
                spec_notation(self.0@) + "\n"@
            } else {
                Seq::<char>::empty()
            }) + spec_table(self.1, self.0@),
    {
        let r = self.0;
        proof {
            self.1.slots_wf(r@);
            lemma_default_slots_wf(r@);
        }
        let nom_sg = self.1.nom_sg(r);
        let acc_sg = self.1.acc_sg(r);
        let dat_sg = self.1.dat_sg(r);
        let gen_sg = self.1.gen_sg(r);
        let nom_pl = self.1.nom_pl(r);
        let acc_pl = self.1.acc_pl(r);
        let dat_pl = self.1.dat_pl(r);
        let gen_pl = self.1.gen_pl(r);
        let sg_len = max_usize(
            max_usize(
                max_usize(nom_sg.char_count(), acc_sg.char_count()),
                max_usize(dat_sg.char_count(), gen_sg.char_count()),
            ),
            "sg".char_count(),
        );
        let pl_len = max_usize(
            max_usize(
                max_usize(nom_pl.char_count(), acc_pl.char_count()),
                max_usize(dat_pl.char_count(), gen_pl.char_count()),
            ),
            "pl".char_count(),
        );
        let mut out = String::new();
        if with_root {
            let nt = r.notation();
            out.append(nt.as_str());
            out.append("\n");
        }
        proof {
            if with_root {
                assert(out@ =~= spec_notation(self.0@) + "\n"@);
            } else {
                assert(out@ =~= Seq::<char>::empty());
            }
        }
        push_header(&mut out, sg_len, pl_len);
        push_row(&mut out, "nom ", &nom_sg, sg_len, &nom_pl, pl_len);
        push_row(&mut out, "acc ", &acc_sg, sg_len, &acc_pl, pl_len);
        push_row(&mut out, "dat ", &dat_sg, sg_len, &dat_pl, pl_len);
        push_row(&mut out, "gen ", &gen_sg, sg_len, &gen_pl, pl_len);
        proof {
            assert(sg_len as nat == spec_sg_width(self.1, self.0@));
            assert(pl_len as nat == spec_pl_width(self.1, self.0@));
            assert(out@ =~= (if with_root {
                spec_notation(self.0@) + "\n"@
            } else {
                Seq::<char>::empty()
            }) + spec_table(self.1, self.0@));
        }
        out
    }
}

/// Parses a citation form and renders its declension table, optionally
/// prefixed by the parsed root's notation line.
pub fn render_table<N: Noun>(citation: &str, n: N, with_root: bool) -> (s: String)
    requires
        citation@.len() + 8 <= usize::MAX,
        spec_parse(citation@).cluster_ok(),
        n.gen_sg_defined(),
    ensures
        s@ == (if with_root {
            spec_notation(spec_parse(citation@)) + "\n"@
        } else {
            Seq::<char>::empty()
        }) + spec_table(n, spec_parse(citation@)),
{
    let root = Root::parse(citation);
    let t = Table(&root, n);
    t.render(with_root)
}

} // verus!
