use fmtcore::config::{
    BraceStyle, Config, ConfigError, ConfigOption, ConfigType, Density, MultilineStyle,
    WriteMode,
};
use fmtcore::lists::{ListTactic, SeparatorTactic};

#[test]
fn defaults() {
    let c = Config::default();
    assert_eq!(c.max_width, 100);
    assert_eq!(c.ideal_width, 80);
    assert_eq!(c.tab_spaces, 4);
    assert!(!c.verbose);
    assert!(c.take_source_hints);
    assert_eq!(c.fn_brace_style, BraceStyle::SameLineWhere);
    assert_eq!(c.fn_args_density, Density::Tall);
    assert_eq!(c.where_layout, ListTactic::Vertical);
    assert_eq!(c.struct_trailing_comma, SeparatorTactic::Vertical);
    assert_eq!(c.write_mode, WriteMode::Replace);
}

#[test]
fn value_kinds_parse_and_hint() {
    assert_eq!(<bool as ConfigType>::doc_hint(), "<boolean>");
    assert_eq!(<usize as ConfigType>::doc_hint(), "<unsigned integer>");
    assert_eq!(<String as ConfigType>::doc_hint(), "<string>");
    assert_eq!(<Density as ConfigType>::doc_hint(), "[Compressed|Tall|CompressedIfEmpty|Vertical]");
    assert_eq!(<bool as ConfigType>::parse("false"), Ok(false));
    assert_eq!(<usize as ConfigType>::parse("007"), Ok(7));
    assert_eq!(<String as ConfigType>::parse("abc"), Ok("abc".to_string()));
    assert_eq!(<ListTactic as ConfigType>::parse("Mixed"), Ok(ListTactic::Mixed));
    assert_eq!(<SeparatorTactic as ConfigType>::parse("Sometimes"), Err(ConfigError::ConfigParseError));
}

#[test]
fn density_and_multiline_style_tactics() {
    assert_eq!(Density::Compressed.to_list_tactic(), ListTactic::Mixed);
    assert_eq!(Density::Tall.to_list_tactic(), ListTactic::HorizontalVertical);
    assert_eq!(Density::CompressedIfEmpty.to_list_tactic(), ListTactic::HorizontalVertical);
    assert_eq!(Density::Vertical.to_list_tactic(), ListTactic::Vertical);
    assert_eq!(MultilineStyle::PreferSingle.to_list_tactic(), ListTactic::HorizontalVertical);
    assert_eq!(MultilineStyle::ForceMulti.to_list_tactic(), ListTactic::Vertical);
}

#[test]
fn docs_list_every_option() {
    let docs = Config::docs();
    assert_eq!(docs.len(), 50);
    assert_eq!(docs[0].option_name(), "verbose");
    assert_eq!(docs[0].doc_string(), "Use verbose output");
    assert_eq!(docs[0].variant_names(), "<boolean>");
    assert_eq!(docs[0].default(), "false");
    assert_eq!(docs[2].option_name(), "max_width");
    assert_eq!(docs[2].default(), "100");
    assert_eq!(docs[9].option_name(), "fn_brace_style");
    assert_eq!(docs[9].variant_names(), "[AlwaysNextLine|PreferSameLine|SameLineWhere]");
    assert_eq!(docs[9].default(), "SameLineWhere");
    assert_eq!(docs[49].option_name(), "write_mode");
}

#[test]
fn option_keys() {
    assert_eq!(ConfigOption::from_key("chain_indent"), Some(ConfigOption::ChainIndent));
    assert_eq!(ConfigOption::from_key("Chain_indent"), None);
}
