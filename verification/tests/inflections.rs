//! The declension classes on concrete words: each scenario gives a
//! citation form and the surface forms its slots must render to.

use inflector::nouns::{
    MascArIr, MascSAr, MascSIr, Masculine, MasculineDative, MasculineGenitive, MasculinePlural,
    Neuter, Noun,
};
use inflector::Root;

fn slot<N: Noun>(n: &N, word: &str, pick: fn(&N, &Root) -> String) -> String {
    let root = Root::parse(word);
    pick(n, &root)
}

#[test]
fn vin_masc_ar_ir() {
    let n = MascArIr;
    assert_eq!(slot(&n, "vin", |n, r| n.nom_sg(r).render(0)), "vinur");
    assert_eq!(slot(&n, "vin", |n, r| n.acc_sg(r).render(0)), "vin");
    assert_eq!(slot(&n, "vin", |n, r| n.dat_sg(r).render(0)), "vini");
    assert_eq!(slot(&n, "vin", |n, r| n.gen_sg(r).render(0)), "vinar");
    assert_eq!(slot(&n, "vin", |n, r| n.nom_pl(r).render(0)), "vinir");
    assert_eq!(slot(&n, "vin", |n, r| n.acc_pl(r).render(0)), "vinir");
    assert_eq!(slot(&n, "vin", |n, r| n.dat_pl(r).render(0)), "vinum");
    assert_eq!(slot(&n, "vin", |n, r| n.gen_pl(r).render(0)), "vina");
}

#[test]
fn heyggjur_masc_s_ar() {
    let n = MascSAr;
    assert_eq!(slot(&n, "hey(g)ˠ", |n, r| n.nom_sg(r).render(0)), "heyggjur");
    assert_eq!(slot(&n, "hey(g)ˠ", |n, r| n.acc_sg(r).render(0)), "heyggj");
    assert_eq!(slot(&n, "hey(g)ˠ", |n, r| n.dat_sg(r).render(0)), "heyggi");
    assert_eq!(slot(&n, "hey(g)ˠ", |n, r| n.gen_sg(r).render(0)), "heygs");
    assert_eq!(slot(&n, "hey(g)ˠ", |n, r| n.nom_pl(r).render(0)), "heyggjar");
}

#[test]
fn sjogvur_masc_s_ar() {
    let n = MascSAr;
    assert_eq!(slot(&n, "sjó(v)ˠ", |n, r| n.nom_sg(r).render(0)), "sjógvur");
    assert_eq!(slot(&n, "sjó(v)ˠ", |n, r| n.dat_sg(r).render(0)), "sjógvi");
    assert_eq!(slot(&n, "sjó(v)ˠ", |n, r| n.gen_sg(r).render(0)), "sjóvs");
    assert_eq!(slot(&n, "sjó(v)ˠ", |n, r| n.nom_pl(r).render(0)), "sjógvar");
}

#[test]
fn summar_neuter() {
    let n = Neuter;
    assert_eq!(slot(&n, "sum(ma)r", |n, r| n.nom_sg(r).render(0)), "summar");
    assert_eq!(slot(&n, "sum(ma)r", |n, r| n.nom_pl(r).render(0)), "summar");
    assert_eq!(slot(&n, "sum(ma)r", |n, r| n.dat_sg(r).render(0)), "sumri");
    assert_eq!(slot(&n, "sum(ma)r", |n, r| n.gen_sg(r).render(0)), "summars");
}

#[test]
fn epli_neuter_umlaut_marker() {
    let n = Neuter;
    assert_eq!(slot(&n, "epl(i)", |n, r| n.nom_sg(r).render(0)), "epli");
    assert_eq!(slot(&n, "epl(i)", |n, r| n.nom_pl(r).render(0)), "epli(r)");
}

#[test]
fn merki_neuter_palatalised() {
    let n = Neuter;
    assert_eq!(slot(&n, "merk(i)ʲ", |n, r| n.nom_pl(r).render(0)), "merki(r)");
    assert_eq!(slot(&n, "merk(i)ʲ", |n, r| n.dat_pl(r).render(0)), "merkjum");
    assert_eq!(slot(&n, "merk(i)ʲ", |n, r| n.gen_pl(r).render(0)), "merkja");
}

#[test]
fn veggur_palatalised_masc_ar_ir() {
    let n = MascArIr;
    assert_eq!(slot(&n, "veggʲ", |n, r| n.nom_sg(r).render(0)), "veggur");
    assert_eq!(slot(&n, "veggʲ", |n, r| n.gen_sg(r).render(0)), "veggjar");
    assert_eq!(slot(&n, "veggʲ", |n, r| n.dat_pl(r).render(0)), "veggjum");
    assert_eq!(slot(&n, "veggʲ", |n, r| n.gen_pl(r).render(0)), "veggja");
}

#[test]
fn blettur_masc_s_ir() {
    let n = MascSIr;
    assert_eq!(slot(&n, "blett", |n, r| n.nom_sg(r).render(0)), "blettur");
    assert_eq!(slot(&n, "blett", |n, r| n.gen_sg(r).render(0)), "bletts");
    assert_eq!(slot(&n, "blett", |n, r| n.nom_pl(r).render(0)), "blettir");
}

#[test]
fn deletable_suppresses_ur() {
    let n = MascSAr;
    assert_eq!(slot(&n, "him(ma)l", |n, r| n.nom_sg(r).render(0)), "himmal");
    assert_eq!(slot(&n, "him(ma)l", |n, r| n.dat_sg(r).render(0)), "himli");
    assert_eq!(slot(&n, "him(ma)l", |n, r| n.nom_pl(r).render(0)), "himlar");
    assert_eq!(slot(&n, "him(ma)l", |n, r| n.gen_sg(r).render(0)), "himmals");
}

#[test]
fn general_masculine_matches_fixed_classes() {
    let general = Masculine(MasculineGenitive::S, MasculinePlural::Ar, MasculineDative::I);
    let fixed = MascSAr;
    for w in ["vin", "hey(g)ˠ", "him(ma)l", "veggʲ"] {
        let root = Root::parse(w);
        assert_eq!(general.nom_sg(&root).render(0), fixed.nom_sg(&root).render(0));
        assert_eq!(general.acc_sg(&root).render(0), fixed.acc_sg(&root).render(0));
        assert_eq!(general.dat_sg(&root).render(0), fixed.dat_sg(&root).render(0));
        assert_eq!(general.gen_sg(&root).render(0), fixed.gen_sg(&root).render(0));
        assert_eq!(general.nom_pl(&root).render(0), fixed.nom_pl(&root).render(0));
    }
    let general = Masculine(MasculineGenitive::Ar, MasculinePlural::Ir, MasculineDative::I);
    let fixed = MascArIr;
    for w in ["vin", "veggʲ", "skó(g)ˠ"] {
        let root = Root::parse(w);
        assert_eq!(general.gen_sg(&root).render(0), fixed.gen_sg(&root).render(0));
        assert_eq!(general.nom_pl(&root).render(0), fixed.nom_pl(&root).render(0));
    }
}

#[test]
fn acc_pl_defaults_to_nom_pl() {
    for w in ["vin", "hey(g)ˠ", "veggʲ", "epl(i)"] {
        let root = Root::parse(w);
        let n = MascSAr;
        assert_eq!(n.acc_pl(&root).render(0), n.nom_pl(&root).render(0));
        let n = Neuter;
        assert_eq!(n.acc_pl(&root).render(0), n.nom_pl(&root).render(0));
    }
}

#[test]
fn plural_defaults_follow_palatalisation() {
    let n = MascSIr;
    let plain = Root::parse("vin");
    assert_eq!(n.dat_pl(&plain).render(0), "vinum");
    assert_eq!(n.gen_pl(&plain).render(0), "vina");
    let palatal = Root::parse("drongʲ");
    assert_eq!(n.dat_pl(&palatal).render(0), "drongjum");
    assert_eq!(n.gen_pl(&palatal).render(0), "drongja");
}

#[test]
fn noun_parse_is_root_parse() {
    let via_noun = Neuter.parse("sum(ma)r");
    let direct = Root::parse("sum(ma)r");
    assert_eq!(via_noun.first_stem, direct.first_stem);
    assert_eq!(via_noun.deletable, direct.deletable);
    assert_eq!(via_noun.end, direct.end);
    assert_eq!(via_noun.extra, direct.extra);
}
