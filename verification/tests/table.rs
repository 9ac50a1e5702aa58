//! Width padding, character counts on multi-byte text, and the aligned
//! table grid.

use inflector::forms::WordForm;
use inflector::nouns::{render_table, MascArIr, MascSAr, Neuter, Noun, Table};
use inflector::Root;

#[test]
fn padding_extends_and_never_truncates() {
    let root = Root::parse("vin");
    let n = MascArIr;
    assert_eq!(n.nom_sg(&root).render(8), "vinur   ");
    assert_eq!(n.nom_sg(&root).render(5), "vinur");
    assert_eq!(n.nom_sg(&root).render(3), "vinur");
    assert_eq!(n.nom_sg(&root).render(0), "vinur");
}

#[test]
fn padding_counts_characters_not_bytes() {
    let root = Root::parse("sjó(v)ˠ");
    let n = MascSAr;
    let padded = n.nom_sg(&root).render(9);
    assert_eq!(padded, "sjógvur  ");
    assert_eq!(padded.chars().count(), 9);
}

#[test]
fn char_count_matches_rendered_characters() {
    for w in ["vin", "sjó(v)ˠ", "hey(g)ˠ", "sum(ma)r", "epl(i)", "veggʲ", "skóˠ"] {
        let root = Root::parse(w);
        for form in [root.full(), root.consonanted(), root.vowelled()] {
            assert_eq!(form.char_count(), form.render(0).chars().count());
            let dropped = form.drop_yod();
            assert_eq!(dropped.char_count(), dropped.render(0).chars().count());
        }
        let n = MascSAr;
        for infl in [n.nom_sg(&root), n.dat_sg(&root), n.gen_sg(&root), n.dat_pl(&root)] {
            assert_eq!(infl.char_count(), infl.render(0).chars().count());
        }
    }
}

#[test]
fn word_form_counts_characters() {
    assert_eq!("sjógv".char_count(), 5);
    assert_eq!(String::from("heyggj").char_count(), 6);
    assert_eq!("".char_count(), 0);
}

#[test]
fn table_grid_for_vin() {
    let root = Root::parse("vin");
    let table = Table(&root, MascArIr);
    let expected = "    | sg    | pl    |\n\
                    nom | vinur | vinir |\n\
                    acc | vin   | vinir |\n\
                    dat | vini  | vinum |\n\
                    gen | vinar | vina  |\n";
    assert_eq!(table.render(false), expected);
}

#[test]
fn table_grid_with_root_line() {
    let root = Root::parse("vin");
    let table = Table(&root, MascArIr);
    let plain = table.render(false);
    let with_root = table.render(true);
    assert_eq!(with_root, format!("`vin`\n{}", plain));
}

#[test]
fn table_columns_fit_widest_cell() {
    let root = Root::parse("hey(g)ˠ");
    let table = Table(&root, MascSAr);
    let rendered = table.render(false);
    let lines: Vec<&str> = rendered.lines().collect();
    assert_eq!(lines.len(), 5);
    let width = lines[0].chars().count();
    for line in &lines {
        assert_eq!(line.chars().count(), width);
    }
    assert!(lines[1].contains("heyggjur"));
    assert!(lines[4].contains("heygs"));
}

#[test]
fn render_table_parses_and_renders() {
    let root = Root::parse("sum(ma)r");
    let direct = Table(&root, Neuter).render(true);
    assert_eq!(render_table("sum(ma)r", Neuter, true), direct);
    let headerless = render_table("epl(i)", Neuter, false);
    assert!(headerless.starts_with("    | sg"));
    assert!(headerless.contains("epli(r)"));
}
