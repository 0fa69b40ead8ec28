use xetex_format::decimal::decimal_string;
use xetex_format::gluepars::{get_gluepars_for_version, get_latest_gluepars, GlueParKind};
use xetex_format::header::{
    c_header_primitives_for_keys, c_header_stanza_for_keys, emit_c_header_primitives,
    emit_c_header_stanza, glue_command, identifier_keys,
};

#[test]
fn decimal_rendering() {
    assert_eq!(decimal_string(0), "0");
    assert_eq!(decimal_string(9), "9");
    assert_eq!(decimal_string(10), "10");
    assert_eq!(decimal_string(19), "19");
    assert_eq!(decimal_string(1234567), "1234567");
    assert_eq!(decimal_string(usize::MAX), usize::MAX.to_string());
}

#[test]
fn stanza_of_first_two() {
    let latest = get_latest_gluepars();
    let text = emit_c_header_stanza(&latest[..2]);
    assert_eq!(
        text,
        "/* Glue (\"skip\") parameters */\n\n\
         #define GLUE_PAR__line_skip 0\n\
         #define GLUE_PAR__baseline_skip 1\n\
         #define GLUE_PARS 2\n\n"
    );
}

#[test]
fn stanza_of_empty_input() {
    let text = emit_c_header_stanza(&[]);
    assert_eq!(text, "/* Glue (\"skip\") parameters */\n\n#define GLUE_PARS 0\n\n");
}

#[test]
fn count_line_of_full_registry() {
    let text = emit_c_header_stanza(&get_latest_gluepars());
    assert!(text.ends_with("#define GLUE_PARS 19\n\n"));
}

#[test]
fn identifiers_are_positions() {
    let latest = get_latest_gluepars();
    let text = emit_c_header_stanza(&latest);
    let lines: Vec<&str> = text.lines().filter(|l| l.starts_with("#define GLUE_PAR__")).collect();
    assert_eq!(lines.len(), 19);
    for (i, line) in lines.iter().enumerate() {
        assert!(line.ends_with(&format!(" {}", i)));
    }
    assert_eq!(lines[15], "#define GLUE_PAR__xetex_linebreak_skip 15");
    assert_eq!(lines[18], "#define GLUE_PAR__thick_mu_skip 18");
}

#[test]
fn identifiers_follow_the_subset_not_the_registry() {
    let latest = get_latest_gluepars();
    let subset = vec![latest[15], latest[16]];
    let text = emit_c_header_stanza(&subset);
    assert!(text.contains("#define GLUE_PAR__xetex_linebreak_skip 0\n"));
    assert!(text.contains("#define GLUE_PAR__thin_mu_skip 1\n"));
    assert!(text.contains("#define GLUE_PARS 2\n"));
}

#[test]
fn name_normalizations_differ() {
    let latest = get_latest_gluepars();
    let par = [latest[15]];
    assert_eq!(par[0].name(), "XeTeX_linebreak_skip");
    let stanza = emit_c_header_stanza(&par);
    assert!(stanza.contains("#define GLUE_PAR__xetex_linebreak_skip 0\n"));
    let prims = emit_c_header_primitives(&par);
    assert_eq!(
        prims,
        "    { \"XeTeXlinebreakskip\", ASSIGN_GLUE, GLUE_BASE + GLUE_PAR__xetex_linebreak_skip, xf_prim_init_none }, \\\n"
    );
}

#[test]
fn keys_are_lowercase_names() {
    let latest = get_latest_gluepars();
    let keys = identifier_keys(&latest);
    assert_eq!(keys.len(), 19);
    assert_eq!(keys[0], "line_skip");
    assert_eq!(keys[15], "xetex_linebreak_skip");
}

#[test]
fn math_tag_on_last_three() {
    let text = emit_c_header_primitives(&get_latest_gluepars());
    let lines: Vec<&str> = text.lines().collect();
    assert_eq!(lines.len(), 19);
    for (i, line) in lines.iter().enumerate() {
        if i >= 16 {
            assert!(line.contains(", ASSIGN_MU_GLUE, "));
        } else {
            assert!(line.contains(", ASSIGN_GLUE, "));
        }
        assert!(line.ends_with(", xf_prim_init_none }, \\"));
    }
    assert_eq!(
        lines[16],
        "    { \"thinmuskip\", ASSIGN_MU_GLUE, GLUE_BASE + GLUE_PAR__thin_mu_skip, xf_prim_init_none }, \\"
    );
}

#[test]
fn command_tags() {
    assert_eq!(glue_command(GlueParKind::Regular), "ASSIGN_GLUE");
    assert_eq!(glue_command(GlueParKind::Math), "ASSIGN_MU_GLUE");
}

#[test]
fn emission_is_idempotent() {
    let pars = get_gluepars_for_version(0);
    assert_eq!(emit_c_header_stanza(&pars), emit_c_header_stanza(&pars));
    assert_eq!(emit_c_header_primitives(&pars), emit_c_header_primitives(&pars));
}

#[test]
fn stanza_from_given_keys() {
    let keys = vec!["a".to_string(), "b_c".to_string()];
    assert_eq!(
        c_header_stanza_for_keys(&keys),
        "/* Glue (\"skip\") parameters */\n\n#define GLUE_PAR__a 0\n#define GLUE_PAR__b_c 1\n#define GLUE_PARS 2\n\n"
    );
}

#[test]
fn primitives_from_given_keys() {
    let latest = get_latest_gluepars();
    let keys = vec!["k".to_string()];
    assert_eq!(
        c_header_primitives_for_keys(&latest[17..18], &keys),
        "    { \"medmuskip\", ASSIGN_MU_GLUE, GLUE_BASE + GLUE_PAR__k, xf_prim_init_none }, \\\n"
    );
}
