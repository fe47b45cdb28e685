//! The style options of the formatter: their kinds, defaults and documentation,
//! and how a configuration is read from text.
use vstd::prelude::*;
use crate::lists::{ListTactic, SeparatorTactic};

verus! {

/// Why a configuration could not be built or changed.
#[derive(Clone, Copy, Debug, PartialEq, Eq, Structural)]
pub enum ConfigError {
    /// The configuration document is malformed, or one of its values cannot be
    /// read as the kind of its option.
    ConfigParseError,
    /// The configuration document names an option that does not exist.
    UnknownOption,
    /// An override names an option that does not exist, or its value cannot be
    /// read as the kind of that option.
    InvalidOverride,
}

pub(crate) fn str_eq(a: &str, b: &str) -> (r: bool)
    ensures
        r == (a@ == b@),
{
    let n = a.unicode_len();
    if n != b.unicode_len() {
        return false;
    }
    let mut i: usize = 0;
    while i < n
        invariant
            i <= n,
            n == a@.len(),
            n == b@.len(),
            forall|j: int| 0 <= j < i ==> a@[j] == b@[j],
        decreases n - i,
    {
        if a.get_char(i) != b.get_char(i) {
            return false;
        }
        i += 1;
    }
    assert(a@ =~= b@);
    true
}

pub open spec fn is_digit(c: char) -> bool {
    '0' <= c <= '9'
}

pub open spec fn digit_value(c: char) -> int {
    c as int - '0' as int
}

/// The number that a string of decimal digits writes.
pub open spec fn decimal_value(s: Seq<char>) -> int
    decreases s.len(),
{
    if s.len() == 0 {
        0
    } else {
        10 * decimal_value(s.drop_last()) + digit_value(s.last())
    }
}

/// An unsigned integer written in decimal digits, if it fits in `usize`.
pub open spec fn spec_parse_usize(s: Seq<char>) -> Option<usize> {
    if s.len() > 0 && (forall|i: int| 0 <= i < s.len() ==> is_digit(#[trigger] s[i]))
        && decimal_value(s) <= usize::MAX {
        Some(decimal_value(s) as usize)
    } else {
        None
    }
}

#[verifier::opaque]
pub open spec fn spec_parse_bool(s: Seq<char>) -> Option<bool> {
    if s == "true"@ {
        Some(true)
    } else if s == "false"@ {
        Some(false)
    } else {
        None
    }
}

proof fn lemma_decimal_value_grows(s: Seq<char>, i: int)
    requires
        0 <= i <= s.len(),
        forall|k: int| 0 <= k < s.len() ==> is_digit(#[trigger] s[k]),
    ensures
        decimal_value(s.take(i)) <= decimal_value(s),
        0 <= decimal_value(s.take(i)),
    decreases s.len() - i,
{
    if i < s.len() {
        lemma_decimal_value_grows(s, i + 1);
        assert(s.take(i + 1).drop_last() =~= s.take(i));
        assert(s.take(i + 1).last() == s[i]);
    } else {
        assert(s.take(i) =~= s);
        if s.len() > 0 {
            lemma_decimal_value_nonneg(s);
        }
    }
}

proof fn lemma_decimal_value_nonneg(s: Seq<char>)
    requires
        forall|k: int| 0 <= k < s.len() ==> is_digit(#[trigger] s[k]),
    ensures
        0 <= decimal_value(s),
    decreases s.len(),
{
    if s.len() > 0 {
        assert(is_digit(s[s.len() - 1]));
        lemma_decimal_value_nonneg(s.drop_last());
    }
}

pub(crate) fn parse_usize(s: &str) -> (r: Option<usize>)
    ensures
        r == spec_parse_usize(s@),
{
    let n = s.unicode_len();
    if n == 0 {
        return None;
    }
    let mut i: usize = 0;
    let mut acc: usize = 0;
    while i < n
        invariant
            i <= n,
            n == s@.len(),
            forall|k: int| 0 <= k < i ==> is_digit(#[trigger] s@[k]),
            acc as int == decimal_value(s@.take(i as int)),
        decreases n - i,
    {
        let c = s.get_char(i);
        if c < '0' || c > '9' {
            return None;
        }
        let d = (c as u32 - '0' as u32) as usize;
        assert(s@.take(i + 1).drop_last() =~= s@.take(i as int));
        assert(s@.take(i + 1).last() == c);
        if acc > (usize::MAX - d) / 10 {
            // the digits read so far already make a number too large; the
            // result is None whether or not the rest are digits
            proof {
                assert(decimal_value(s@.take(i + 1)) > usize::MAX);
                if forall|k: int| 0 <= k < s@.len() ==> is_digit(#[trigger] s@[k]) {
                    lemma_decimal_value_grows(s@, i + 1);
                }
            }
            return None;
        }
        acc = acc * 10 + d;
        i += 1;
    }
    assert(s@.take(n as int) =~= s@);
    Some(acc)
}

pub(crate) fn parse_bool(s: &str) -> (r: Option<bool>)
    ensures
        r == spec_parse_bool(s@),
{
    reveal(spec_parse_bool);
    if str_eq(s, "true") {
        Some(true)
    } else if str_eq(s, "false") {
        Some(false)
    } else {
        None
    }
}

/// Trait for types that can be used in `Config`.
pub trait ConfigType: Sized {
    /// The error type for `parse()`.
    type ParseErr;

    spec fn spec_doc_hint() -> Seq<char>;

    /// Whether `s` can be read as a value of this type.
    spec fn spec_parses(s: Seq<char>) -> bool;

    /// Whether `v` is the value that `s` reads as.
    spec fn spec_parses_to(s: Seq<char>, v: Self) -> bool;

    /// Returns hint text for use in `Config::docs()`. For enum types, this is a
    /// pipe-separated list of variants; for other types it returns "<type>".
    fn doc_hint() -> (r: String)
        ensures
            r@ == Self::spec_doc_hint(),
    ;

    /// Parses a string given as the value of an option.
    fn parse(s: &str) -> (r: Result<Self, Self::ParseErr>)
        ensures
            r is Ok <==> Self::spec_parses(s@),
            r matches Ok(v) ==> Self::spec_parses_to(s@, v),
    ;
}

impl ConfigType for bool {
    type ParseErr = ConfigError;

    open spec fn spec_doc_hint() -> Seq<char> {
        "<boolean>"@
    }

    open spec fn spec_parses(s: Seq<char>) -> bool {
        spec_parse_bool(s) is Some
    }

    open spec fn spec_parses_to(s: Seq<char>, v: bool) -> bool {
        spec_parse_bool(s) == Some(v)
    }

    fn doc_hint() -> (r: String) {
        String::from_str("<boolean>")
    }

    fn parse(s: &str) -> (r: Result<bool, ConfigError>) {
        match parse_bool(s) {
            Some(b) => Ok(b),
            None => Err(ConfigError::ConfigParseError),
        }
    }
}

impl ConfigType for usize {
    type ParseErr = ConfigError;

    open spec fn spec_doc_hint() -> Seq<char> {
        "<unsigned integer>"@
    }

    open spec fn spec_parses(s: Seq<char>) -> bool {
        spec_parse_usize(s) is Some
    }

    open spec fn spec_parses_to(s: Seq<char>, v: usize) -> bool {
        spec_parse_usize(s) == Some(v)
    }

    fn doc_hint() -> (r: String) {
        String::from_str("<unsigned integer>")
    }

    fn parse(s: &str) -> (r: Result<usize, ConfigError>) {
        match parse_usize(s) {
            Some(n) => Ok(n),
            None => Err(ConfigError::ConfigParseError),
        }
    }
}

impl ConfigType for String {
    type ParseErr = ConfigError;

    open spec fn spec_doc_hint() -> Seq<char> {
        "<string>"@
    }

    open spec fn spec_parses(s: Seq<char>) -> bool {
        true
    }

    open spec fn spec_parses_to(s: Seq<char>, v: String) -> bool {
        v@ == s
    }

    fn doc_hint() -> (r: String) {
        String::from_str("<string>")
    }

    fn parse(s: &str) -> (r: Result<String, ConfigError>) {
        Ok(String::from_str(s))
    }
}

#[derive(Clone, Copy, Debug, PartialEq, Eq, Structural)]
pub enum NewlineStyle {
    /// \r\n
    Windows,
    /// \n
    Unix,
    /// \r\n in Windows, \n on other platforms
    Native,
}

impl NewlineStyle {
    #[verifier::opaque]
    pub open spec fn spec_from_name(s: Seq<char>) -> Option<NewlineStyle> {
        if s == "Windows"@ {
            Some(NewlineStyle::Windows)
        } else if s == "Unix"@ {
            Some(NewlineStyle::Unix)
        } else if s == "Native"@ {
            Some(NewlineStyle::Native)
        } else {
            None
        }
    }

    /// The value whose name is exactly `s`.
    pub fn from_name(s: &str) -> (r: Option<NewlineStyle>)
        ensures
            r == NewlineStyle::spec_from_name(s@),
    {
        reveal(NewlineStyle::spec_from_name);
        if str_eq(s, "Windows") {
            Some(NewlineStyle::Windows)
        } else if str_eq(s, "Unix") {
            Some(NewlineStyle::Unix)
        } else if str_eq(s, "Native") {
            Some(NewlineStyle::Native)
        } else {
            None
        }
    }
}

impl ConfigType for NewlineStyle {
    type ParseErr = ConfigError;

    open spec fn spec_doc_hint() -> Seq<char> {
        "[Windows|Unix|Native]"@
    }

    open spec fn spec_parses(s: Seq<char>) -> bool {
        NewlineStyle::spec_from_name(s) is Some
    }

    open spec fn spec_parses_to(s: Seq<char>, v: NewlineStyle) -> bool {
        NewlineStyle::spec_from_name(s) == Some(v)
    }

    fn doc_hint() -> (r: String) {
        String::from_str("[Windows|Unix|Native]")
    }

    fn parse(s: &str) -> (r: Result<NewlineStyle, ConfigError>) {
        match NewlineStyle::from_name(s) {
            Some(v) => Ok(v),
            None => Err(ConfigError::ConfigParseError),
        }
    }
}

#[derive(Clone, Copy, Debug, PartialEq, Eq, Structural)]
pub enum BraceStyle {
    AlwaysNextLine,
    PreferSameLine,
    /// Prefer same line except where there is a where clause, in which case force
    /// the brace to the next line.
    SameLineWhere,
}

impl BraceStyle {
    #[verifier::opaque]
    pub open spec fn spec_from_name(s: Seq<char>) -> Option<BraceStyle> {
        if s == "AlwaysNextLine"@ {
            Some(BraceStyle::AlwaysNextLine)
        } else if s == "PreferSameLine"@ {
            Some(BraceStyle::PreferSameLine)
        } else if s == "SameLineWhere"@ {
            Some(BraceStyle::SameLineWhere)
        } else {
            None
        }
    }

    /// The value whose name is exactly `s`.
    pub fn from_name(s: &str) -> (r: Option<BraceStyle>)
        ensures
            r == BraceStyle::spec_from_name(s@),
    {
        reveal(BraceStyle::spec_from_name);
        if str_eq(s, "AlwaysNextLine") {
            Some(BraceStyle::AlwaysNextLine)
        } else if str_eq(s, "PreferSameLine") {
            Some(BraceStyle::PreferSameLine)
        } else if str_eq(s, "SameLineWhere") {
            Some(BraceStyle::SameLineWhere)
        } else {
            None
        }
    }
}

impl ConfigType for BraceStyle {
    type ParseErr = ConfigError;

    open spec fn spec_doc_hint() -> Seq<char> {
        "[AlwaysNextLine|PreferSameLine|SameLineWhere]"@
    }

    open spec fn spec_parses(s: Seq<char>) -> bool {
        BraceStyle::spec_from_name(s) is Some
    }

    open spec fn spec_parses_to(s: Seq<char>, v: BraceStyle) -> bool {
        BraceStyle::spec_from_name(s) == Some(v)
    }

    fn doc_hint() -> (r: String) {
        String::from_str("[AlwaysNextLine|PreferSameLine|SameLineWhere]")
    }

    fn parse(s: &str) -> (r: Result<BraceStyle, ConfigError>) {
        match BraceStyle::from_name(s) {
            Some(v) => Ok(v),
            None => Err(ConfigError::ConfigParseError),
        }
    }
}

#[derive(Clone, Copy, Debug, PartialEq, Eq, Structural)]
pub enum ControlBraceStyle {
    /// K&R/Stroustrup style, Rust community default
    AlwaysSameLine,
    /// Allman style
    AlwaysNextLine,
}

impl ControlBraceStyle {
    #[verifier::opaque]
    pub open spec fn spec_from_name(s: Seq<char>) -> Option<ControlBraceStyle> {
        if s == "AlwaysSameLine"@ {
            Some(ControlBraceStyle::AlwaysSameLine)
        } else if s == "AlwaysNextLine"@ {
            Some(ControlBraceStyle::AlwaysNextLine)
        } else {
            None
        }
    }

    /// The value whose name is exactly `s`.
    pub fn from_name(s: &str) -> (r: Option<ControlBraceStyle>)
        ensures
            r == ControlBraceStyle::spec_from_name(s@),
    {
        reveal(ControlBraceStyle::spec_from_name);
        if str_eq(s, "AlwaysSameLine") {
            Some(ControlBraceStyle::AlwaysSameLine)
        } else if str_eq(s, "AlwaysNextLine") {
            Some(ControlBraceStyle::AlwaysNextLine)
        } else {
            None
        }
    }
}

impl ConfigType for ControlBraceStyle {
    type ParseErr = ConfigError;

    open spec fn spec_doc_hint() -> Seq<char> {
        "[AlwaysSameLine|AlwaysNextLine]"@
    }

    open spec fn spec_parses(s: Seq<char>) -> bool {
        ControlBraceStyle::spec_from_name(s) is Some
    }

    open spec fn spec_parses_to(s: Seq<char>, v: ControlBraceStyle) -> bool {
        ControlBraceStyle::spec_from_name(s) == Some(v)
    }

    fn doc_hint() -> (r: String) {
        String::from_str("[AlwaysSameLine|AlwaysNextLine]")
    }

    fn parse(s: &str) -> (r: Result<ControlBraceStyle, ConfigError>) {
        match ControlBraceStyle::from_name(s) {
            Some(v) => Ok(v),
            None => Err(ConfigError::ConfigParseError),
        }
    }
}

#[derive(Clone, Copy, Debug, PartialEq, Eq, Structural)]
pub enum ElseIfBraceStyle {
    /// K&R style, Rust community default
    AlwaysSameLine,
    /// Stroustrup style
    ClosingNextLine,
    /// Allman style
    AlwaysNextLine,
}

impl ElseIfBraceStyle {
    #[verifier::opaque]
    pub open spec fn spec_from_name(s: Seq<char>) -> Option<ElseIfBraceStyle> {
        if s == "AlwaysSameLine"@ {
            Some(ElseIfBraceStyle::AlwaysSameLine)
        } else if s == "ClosingNextLine"@ {
            Some(ElseIfBraceStyle::ClosingNextLine)
        } else if s == "AlwaysNextLine"@ {
            Some(ElseIfBraceStyle::AlwaysNextLine)
        } else {
            None
        }
    }

    /// The value whose name is exactly `s`.
    pub fn from_name(s: &str) -> (r: Option<ElseIfBraceStyle>)
        ensures
            r == ElseIfBraceStyle::spec_from_name(s@),
    {
        reveal(ElseIfBraceStyle::spec_from_name);
        if str_eq(s, "AlwaysSameLine") {
            Some(ElseIfBraceStyle::AlwaysSameLine)
        } else if str_eq(s, "ClosingNextLine") {
            Some(ElseIfBraceStyle::ClosingNextLine)
        } else if str_eq(s, "AlwaysNextLine") {
            Some(ElseIfBraceStyle::AlwaysNextLine)
        } else {
            None
        }
    }
}

impl ConfigType for ElseIfBraceStyle {
    type ParseErr = ConfigError;

    open spec fn spec_doc_hint() -> Seq<char> {
        "[AlwaysSameLine|ClosingNextLine|AlwaysNextLine]"@
    }

    open spec fn spec_parses(s: Seq<char>) -> bool {
        ElseIfBraceStyle::spec_from_name(s) is Some
    }

    open spec fn spec_parses_to(s: Seq<char>, v: ElseIfBraceStyle) -> bool {
        ElseIfBraceStyle::spec_from_name(s) == Some(v)
    }

    fn doc_hint() -> (r: String) {
        String::from_str("[AlwaysSameLine|ClosingNextLine|AlwaysNextLine]")
    }

    fn parse(s: &str) -> (r: Result<ElseIfBraceStyle, ConfigError>) {
        match ElseIfBraceStyle::from_name(s) {
            Some(v) => Ok(v),
            None => Err(ConfigError::ConfigParseError),
        }
    }
}

/// How to indent a function's return type.
#[derive(Clone, Copy, Debug, PartialEq, Eq, Structural)]
pub enum ReturnIndent {
    /// Aligned with the arguments
    WithArgs,
    /// Aligned with the where clause
    WithWhereClause,
}

impl ReturnIndent {
    #[verifier::opaque]
    pub open spec fn spec_from_name(s: Seq<char>) -> Option<ReturnIndent> {
        if s == "WithArgs"@ {
            Some(ReturnIndent::WithArgs)
        } else if s == "WithWhereClause"@ {
            Some(ReturnIndent::WithWhereClause)
        } else {
            None
        }
    }

    /// The value whose name is exactly `s`.
    pub fn from_name(s: &str) -> (r: Option<ReturnIndent>)
        ensures
            r == ReturnIndent::spec_from_name(s@),
    {
        reveal(ReturnIndent::spec_from_name);
        if str_eq(s, "WithArgs") {
            Some(ReturnIndent::WithArgs)
        } else if str_eq(s, "WithWhereClause") {
            Some(ReturnIndent::WithWhereClause)
        } else {
            None
        }
    }
}

impl ConfigType for ReturnIndent {
    type ParseErr = ConfigError;

    open spec fn spec_doc_hint() -> Seq<char> {
        "[WithArgs|WithWhereClause]"@
    }

    open spec fn spec_parses(s: Seq<char>) -> bool {
        ReturnIndent::spec_from_name(s) is Some
    }

    open spec fn spec_parses_to(s: Seq<char>, v: ReturnIndent) -> bool {
        ReturnIndent::spec_from_name(s) == Some(v)
    }

    fn doc_hint() -> (r: String) {
        String::from_str("[WithArgs|WithWhereClause]")
    }

    fn parse(s: &str) -> (r: Result<ReturnIndent, ConfigError>) {
        match ReturnIndent::from_name(s) {
            Some(v) => Ok(v),
            None => Err(ConfigError::ConfigParseError),
        }
    }
}

/// How to style a struct literal.
#[derive(Clone, Copy, Debug, PartialEq, Eq, Structural)]
pub enum StructLitStyle {
    /// First line on the same line as the opening brace, all lines aligned with
    /// the first line.
    Visual,
    /// First line is on a new line and all lines align with block indent.
    Block,
}

impl StructLitStyle {
    #[verifier::opaque]
    pub open spec fn spec_from_name(s: Seq<char>) -> Option<StructLitStyle> {
        if s == "Visual"@ {
            Some(StructLitStyle::Visual)
        } else if s == "Block"@ {
            Some(StructLitStyle::Block)
        } else {
            None
        }
    }

    /// The value whose name is exactly `s`.
    pub fn from_name(s: &str) -> (r: Option<StructLitStyle>)
        ensures
            r == StructLitStyle::spec_from_name(s@),
    {
        reveal(StructLitStyle::spec_from_name);
        if str_eq(s, "Visual") {
            Some(StructLitStyle::Visual)
        } else if str_eq(s, "Block") {
            Some(StructLitStyle::Block)
        } else {
            None
        }
    }
}

impl ConfigType for StructLitStyle {
    type ParseErr = ConfigError;

    open spec fn spec_doc_hint() -> Seq<char> {
        "[Visual|Block]"@
    }

    open spec fn spec_parses(s: Seq<char>) -> bool {
        StructLitStyle::spec_from_name(s) is Some
    }

    open spec fn spec_parses_to(s: Seq<char>, v: StructLitStyle) -> bool {
        StructLitStyle::spec_from_name(s) == Some(v)
    }

    fn doc_hint() -> (r: String) {
        String::from_str("[Visual|Block]")
    }

    fn parse(s: &str) -> (r: Result<StructLitStyle, ConfigError>) {
        match StructLitStyle::from_name(s) {
            Some(v) => Ok(v),
            None => Err(ConfigError::ConfigParseError),
        }
    }
}

/// How to style fn args.
#[derive(Clone, Copy, Debug, PartialEq, Eq, Structural)]
pub enum FnArgLayoutStyle {
    /// First line on the same line as the opening brace, all lines aligned with
    /// the first line.
    Visual,
    /// Put args on one line if they fit, or start a new line with block indent.
    Block,
    /// First line is on a new line and all lines align with block indent.
    BlockAlways,
}

impl FnArgLayoutStyle {
    #[verifier::opaque]
    pub open spec fn spec_from_name(s: Seq<char>) -> Option<FnArgLayoutStyle> {
        if s == "Visual"@ {
            Some(FnArgLayoutStyle::Visual)
        } else if s == "Block"@ {
            Some(FnArgLayoutStyle::Block)
        } else if s == "BlockAlways"@ {
            Some(FnArgLayoutStyle::BlockAlways)
        } else {
            None
        }
    }

    /// The value whose name is exactly `s`.
    pub fn from_name(s: &str) -> (r: Option<FnArgLayoutStyle>)
        ensures
            r == FnArgLayoutStyle::spec_from_name(s@),
    {
        reveal(FnArgLayoutStyle::spec_from_name);
        if str_eq(s, "Visual") {
            Some(FnArgLayoutStyle::Visual)
        } else if str_eq(s, "Block") {
            Some(FnArgLayoutStyle::Block)
        } else if str_eq(s, "BlockAlways") {
            Some(FnArgLayoutStyle::BlockAlways)
        } else {
            None
        }
    }
}

impl ConfigType for FnArgLayoutStyle {
    type ParseErr = ConfigError;

    open spec fn spec_doc_hint() -> Seq<char> {
        "[Visual|Block|BlockAlways]"@
    }

    open spec fn spec_parses(s: Seq<char>) -> bool {
        FnArgLayoutStyle::spec_from_name(s) is Some
    }

    open spec fn spec_parses_to(s: Seq<char>, v: FnArgLayoutStyle) -> bool {
        FnArgLayoutStyle::spec_from_name(s) == Some(v)
    }

    fn doc_hint() -> (r: String) {
        String::from_str("[Visual|Block|BlockAlways]")
    }

    fn parse(s: &str) -> (r: Result<FnArgLayoutStyle, ConfigError>) {
        match FnArgLayoutStyle::from_name(s) {
            Some(v) => Ok(v),
            None => Err(ConfigError::ConfigParseError),
        }
    }
}

#[derive(Clone, Copy, Debug, PartialEq, Eq, Structural)]
pub enum BlockIndentStyle {
    /// Same level as parent.
    Inherit,
    /// One level deeper than parent.
    Tabbed,
    /// Aligned with block open.
    Visual,
}

impl BlockIndentStyle {
    #[verifier::opaque]
    pub open spec fn spec_from_name(s: Seq<char>) -> Option<BlockIndentStyle> {
        if s == "Inherit"@ {
            Some(BlockIndentStyle::Inherit)
        } else if s == "Tabbed"@ {
            Some(BlockIndentStyle::Tabbed)
        } else if s == "Visual"@ {
            Some(BlockIndentStyle::Visual)
        } else {
            None
        }
    }

    /// The value whose name is exactly `s`.
    pub fn from_name(s: &str) -> (r: Option<BlockIndentStyle>)
        ensures
            r == BlockIndentStyle::spec_from_name(s@),
    {
        reveal(BlockIndentStyle::spec_from_name);
        if str_eq(s, "Inherit") {
            Some(BlockIndentStyle::Inherit)
        } else if str_eq(s, "Tabbed") {
            Some(BlockIndentStyle::Tabbed)
        } else if str_eq(s, "Visual") {
            Some(BlockIndentStyle::Visual)
        } else {
            None
        }
    }
}

impl ConfigType for BlockIndentStyle {
    type ParseErr = ConfigError;

    open spec fn spec_doc_hint() -> Seq<char> {
        "[Inherit|Tabbed|Visual]"@
    }

    open spec fn spec_parses(s: Seq<char>) -> bool {
        BlockIndentStyle::spec_from_name(s) is Some
    }

    open spec fn spec_parses_to(s: Seq<char>, v: BlockIndentStyle) -> bool {
        BlockIndentStyle::spec_from_name(s) == Some(v)
    }

    fn doc_hint() -> (r: String) {
        String::from_str("[Inherit|Tabbed|Visual]")
    }

    fn parse(s: &str) -> (r: Result<BlockIndentStyle, ConfigError>) {
        match BlockIndentStyle::from_name(s) {
            Some(v) => Ok(v),
            None => Err(ConfigError::ConfigParseError),
        }
    }
}

#[derive(Clone, Copy, Debug, PartialEq, Eq, Structural)]
pub enum Density {
    /// Fit as much on one line as possible.
    Compressed,
    /// Use more lines.
    Tall,
    /// Try to compress if the body is empty.
    CompressedIfEmpty,
    /// Place every item on a separate line.
    Vertical,
}

impl Density {
    #[verifier::opaque]
    pub open spec fn spec_from_name(s: Seq<char>) -> Option<Density> {
        if s == "Compressed"@ {
            Some(Density::Compressed)
        } else if s == "Tall"@ {
            Some(Density::Tall)
        } else if s == "CompressedIfEmpty"@ {
            Some(Density::CompressedIfEmpty)
        } else if s == "Vertical"@ {
            Some(Density::Vertical)
        } else {
            None
        }
    }

    /// The value whose name is exactly `s`.
    pub fn from_name(s: &str) -> (r: Option<Density>)
        ensures
            r == Density::spec_from_name(s@),
    {
        reveal(Density::spec_from_name);
        if str_eq(s, "Compressed") {
            Some(Density::Compressed)
        } else if str_eq(s, "Tall") {
            Some(Density::Tall)
        } else if str_eq(s, "CompressedIfEmpty") {
            Some(Density::CompressedIfEmpty)
        } else if str_eq(s, "Vertical") {
            Some(Density::Vertical)
        } else {
            None
        }
    }
}

impl ConfigType for Density {
    type ParseErr = ConfigError;

    open spec fn spec_doc_hint() -> Seq<char> {
        "[Compressed|Tall|CompressedIfEmpty|Vertical]"@
    }

    open spec fn spec_parses(s: Seq<char>) -> bool {
        Density::spec_from_name(s) is Some
    }

    open spec fn spec_parses_to(s: Seq<char>, v: Density) -> bool {
        Density::spec_from_name(s) == Some(v)
    }

    fn doc_hint() -> (r: String) {
        String::from_str("[Compressed|Tall|CompressedIfEmpty|Vertical]")
    }

    fn parse(s: &str) -> (r: Result<Density, ConfigError>) {
        match Density::from_name(s) {
            Some(v) => Ok(v),
            None => Err(ConfigError::ConfigParseError),
        }
    }
}

#[derive(Clone, Copy, Debug, PartialEq, Eq, Structural)]
pub enum TypeDensity {
    /// No spaces around "=" and "+"
    Compressed,
    /// Spaces around " = " and " + "
    Wide,
}

impl TypeDensity {
    #[verifier::opaque]
    pub open spec fn spec_from_name(s: Seq<char>) -> Option<TypeDensity> {
        if s == "Compressed"@ {
            Some(TypeDensity::Compressed)
        } else if s == "Wide"@ {
            Some(TypeDensity::Wide)
        } else {
            None
        }
    }

    /// The value whose name is exactly `s`.
    pub fn from_name(s: &str) -> (r: Option<TypeDensity>)
        ensures
            r == TypeDensity::spec_from_name(s@),
    {
        reveal(TypeDensity::spec_from_name);
        if str_eq(s, "Compressed") {
            Some(TypeDensity::Compressed)
        } else if str_eq(s, "Wide") {
            Some(TypeDensity::Wide)
        } else {
            None
        }
    }
}

impl ConfigType for TypeDensity {
    type ParseErr = ConfigError;

    open spec fn spec_doc_hint() -> Seq<char> {
        "[Compressed|Wide]"@
    }

    open spec fn spec_parses(s: Seq<char>) -> bool {
        TypeDensity::spec_from_name(s) is Some
    }

    open spec fn spec_parses_to(s: Seq<char>, v: TypeDensity) -> bool {
        TypeDensity::spec_from_name(s) == Some(v)
    }

    fn doc_hint() -> (r: String) {
        String::from_str("[Compressed|Wide]")
    }

    fn parse(s: &str) -> (r: Result<TypeDensity, ConfigError>) {
        match TypeDensity::from_name(s) {
            Some(v) => Ok(v),
            None => Err(ConfigError::ConfigParseError),
        }
    }
}

#[derive(Clone, Copy, Debug, PartialEq, Eq, Structural)]
pub enum LicensePolicy {
    /// Do not place license text at top of files
    NoLicense,
    /// Use the text in "license" field as the license
    TextLicense,
    /// Use a text file as the license text
    FileLicense,
}

impl LicensePolicy {
    #[verifier::opaque]
    pub open spec fn spec_from_name(s: Seq<char>) -> Option<LicensePolicy> {
        if s == "NoLicense"@ {
            Some(LicensePolicy::NoLicense)
        } else if s == "TextLicense"@ {
            Some(LicensePolicy::TextLicense)
        } else if s == "FileLicense"@ {
            Some(LicensePolicy::FileLicense)
        } else {
            None
        }
    }

    /// The value whose name is exactly `s`.
    pub fn from_name(s: &str) -> (r: Option<LicensePolicy>)
        ensures
            r == LicensePolicy::spec_from_name(s@),
    {
        reveal(LicensePolicy::spec_from_name);
        if str_eq(s, "NoLicense") {
            Some(LicensePolicy::NoLicense)
        } else if str_eq(s, "TextLicense") {
            Some(LicensePolicy::TextLicense)
        } else if str_eq(s, "FileLicense") {
            Some(LicensePolicy::FileLicense)
        } else {
            None
        }
    }
}

impl ConfigType for LicensePolicy {
    type ParseErr = ConfigError;

    open spec fn spec_doc_hint() -> Seq<char> {
        "[NoLicense|TextLicense|FileLicense]"@
    }

    open spec fn spec_parses(s: Seq<char>) -> bool {
        LicensePolicy::spec_from_name(s) is Some
    }

    open spec fn spec_parses_to(s: Seq<char>, v: LicensePolicy) -> bool {
        LicensePolicy::spec_from_name(s) == Some(v)
    }

    fn doc_hint() -> (r: String) {
        String::from_str("[NoLicense|TextLicense|FileLicense]")
    }

    fn parse(s: &str) -> (r: Result<LicensePolicy, ConfigError>) {
        match LicensePolicy::from_name(s) {
            Some(v) => Ok(v),
            None => Err(ConfigError::ConfigParseError),
        }
    }
}

#[derive(Clone, Copy, Debug, PartialEq, Eq, Structural)]
pub enum MultilineStyle {
    /// Use horizontal layout if it fits in one line, fall back to vertical
    PreferSingle,
    /// Use vertical layout
    ForceMulti,
}

impl MultilineStyle {
    #[verifier::opaque]
    pub open spec fn spec_from_name(s: Seq<char>) -> Option<MultilineStyle> {
        if s == "PreferSingle"@ {
            Some(MultilineStyle::PreferSingle)
        } else if s == "ForceMulti"@ {
            Some(MultilineStyle::ForceMulti)
        } else {
            None
        }
    }

    /// The value whose name is exactly `s`.
    pub fn from_name(s: &str) -> (r: Option<MultilineStyle>)
        ensures
            r == MultilineStyle::spec_from_name(s@),
    {
        reveal(MultilineStyle::spec_from_name);
        if str_eq(s, "PreferSingle") {
            Some(MultilineStyle::PreferSingle)
        } else if str_eq(s, "ForceMulti") {
            Some(MultilineStyle::ForceMulti)
        } else {
            None
        }
    }
}

impl ConfigType for MultilineStyle {
    type ParseErr = ConfigError;

    open spec fn spec_doc_hint() -> Seq<char> {
        "[PreferSingle|ForceMulti]"@
    }

    open spec fn spec_parses(s: Seq<char>) -> bool {
        MultilineStyle::spec_from_name(s) is Some
    }

    open spec fn spec_parses_to(s: Seq<char>, v: MultilineStyle) -> bool {
        MultilineStyle::spec_from_name(s) == Some(v)
    }

    fn doc_hint() -> (r: String) {
        String::from_str("[PreferSingle|ForceMulti]")
    }

    fn parse(s: &str) -> (r: Result<MultilineStyle, ConfigError>) {
        match MultilineStyle::from_name(s) {
            Some(v) => Ok(v),
            None => Err(ConfigError::ConfigParseError),
        }
    }
}

#[derive(Clone, Copy, Debug, PartialEq, Eq, Structural)]
pub enum ReportTactic {
    Always,
    Unnumbered,
    Never,
}

impl ReportTactic {
    #[verifier::opaque]
    pub open spec fn spec_from_name(s: Seq<char>) -> Option<ReportTactic> {
        if s == "Always"@ {
            Some(ReportTactic::Always)
        } else if s == "Unnumbered"@ {
            Some(ReportTactic::Unnumbered)
        } else if s == "Never"@ {
            Some(ReportTactic::Never)
        } else {
            None
        }
    }

    /// The value whose name is exactly `s`.
    pub fn from_name(s: &str) -> (r: Option<ReportTactic>)
        ensures
            r == ReportTactic::spec_from_name(s@),
    {
        reveal(ReportTactic::spec_from_name);
        if str_eq(s, "Always") {
            Some(ReportTactic::Always)
        } else if str_eq(s, "Unnumbered") {
            Some(ReportTactic::Unnumbered)
        } else if str_eq(s, "Never") {
            Some(ReportTactic::Never)
        } else {
            None
        }
    }
}

impl ConfigType for ReportTactic {
    type ParseErr = ConfigError;

    open spec fn spec_doc_hint() -> Seq<char> {
        "[Always|Unnumbered|Never]"@
    }

    open spec fn spec_parses(s: Seq<char>) -> bool {
        ReportTactic::spec_from_name(s) is Some
    }

    open spec fn spec_parses_to(s: Seq<char>, v: ReportTactic) -> bool {
        ReportTactic::spec_from_name(s) == Some(v)
    }

    fn doc_hint() -> (r: String) {
        String::from_str("[Always|Unnumbered|Never]")
    }

    fn parse(s: &str) -> (r: Result<ReportTactic, ConfigError>) {
        match ReportTactic::from_name(s) {
            Some(v) => Ok(v),
            None => Err(ConfigError::ConfigParseError),
        }
    }
}

#[derive(Clone, Copy, Debug, PartialEq, Eq, Structural)]
pub enum WriteMode {
    /// Backsup the original file and overwrites the orignal.
    Replace,
    /// Overwrites original file without backup.
    Overwrite,
    /// Write the output to stdout.
    Display,
    /// Write the diff to stdout.
    Diff,
    /// Display how much of the input file was processed
    Coverage,
    /// Unfancy stdout
    Plain,
    /// Output a checkstyle XML file.
    Checkstyle,
}

impl WriteMode {
    #[verifier::opaque]
    pub open spec fn spec_from_name(s: Seq<char>) -> Option<WriteMode> {
        if s == "Replace"@ {
            Some(WriteMode::Replace)
        } else if s == "Overwrite"@ {
            Some(WriteMode::Overwrite)
        } else if s == "Display"@ {
            Some(WriteMode::Display)
        } else if s == "Diff"@ {
            Some(WriteMode::Diff)
        } else if s == "Coverage"@ {
            Some(WriteMode::Coverage)
        } else if s == "Plain"@ {
            Some(WriteMode::Plain)
        } else if s == "Checkstyle"@ {
            Some(WriteMode::Checkstyle)
        } else {
            None
        }
    }

    /// The value whose name is exactly `s`.
    pub fn from_name(s: &str) -> (r: Option<WriteMode>)
        ensures
            r == WriteMode::spec_from_name(s@),
    {
        reveal(WriteMode::spec_from_name);
        if str_eq(s, "Replace") {
            Some(WriteMode::Replace)
        } else if str_eq(s, "Overwrite") {
            Some(WriteMode::Overwrite)
        } else if str_eq(s, "Display") {
            Some(WriteMode::Display)
        } else if str_eq(s, "Diff") {
            Some(WriteMode::Diff)
        } else if str_eq(s, "Coverage") {
            Some(WriteMode::Coverage)
        } else if str_eq(s, "Plain") {
            Some(WriteMode::Plain)
        } else if str_eq(s, "Checkstyle") {
            Some(WriteMode::Checkstyle)
        } else {
            None
        }
    }
}

impl ConfigType for WriteMode {
    type ParseErr = ConfigError;

    open spec fn spec_doc_hint() -> Seq<char> {
        "[Replace|Overwrite|Display|Diff|Coverage|Plain|Checkstyle]"@
    }

    open spec fn spec_parses(s: Seq<char>) -> bool {
        WriteMode::spec_from_name(s) is Some
    }

    open spec fn spec_parses_to(s: Seq<char>, v: WriteMode) -> bool {
        WriteMode::spec_from_name(s) == Some(v)
    }

    fn doc_hint() -> (r: String) {
        String::from_str("[Replace|Overwrite|Display|Diff|Coverage|Plain|Checkstyle]")
    }

    fn parse(s: &str) -> (r: Result<WriteMode, ConfigError>) {
        match WriteMode::from_name(s) {
            Some(v) => Ok(v),
            None => Err(ConfigError::ConfigParseError),
        }
    }
}

impl ListTactic {
    #[verifier::opaque]
    pub open spec fn spec_from_name(s: Seq<char>) -> Option<ListTactic> {
        if s == "Vertical"@ {
            Some(ListTactic::Vertical)
        } else if s == "Horizontal"@ {
            Some(ListTactic::Horizontal)
        } else if s == "HorizontalVertical"@ {
            Some(ListTactic::HorizontalVertical)
        } else if s == "Mixed"@ {
            Some(ListTactic::Mixed)
        } else {
            None
        }
    }

    /// The value whose name is exactly `s`.
    pub fn from_name(s: &str) -> (r: Option<ListTactic>)
        ensures
            r == ListTactic::spec_from_name(s@),
    {
        reveal(ListTactic::spec_from_name);
        if str_eq(s, "Vertical") {
            Some(ListTactic::Vertical)
        } else if str_eq(s, "Horizontal") {
            Some(ListTactic::Horizontal)
        } else if str_eq(s, "HorizontalVertical") {
            Some(ListTactic::HorizontalVertical)
        } else if str_eq(s, "Mixed") {
            Some(ListTactic::Mixed)
        } else {
            None
        }
    }
}

impl ConfigType for ListTactic {
    type ParseErr = ConfigError;

    open spec fn spec_doc_hint() -> Seq<char> {
        "[Vertical|Horizontal|HorizontalVertical|Mixed]"@
    }

    open spec fn spec_parses(s: Seq<char>) -> bool {
        ListTactic::spec_from_name(s) is Some
    }

    open spec fn spec_parses_to(s: Seq<char>, v: ListTactic) -> bool {
        ListTactic::spec_from_name(s) == Some(v)
    }

    fn doc_hint() -> (r: String) {
        String::from_str("[Vertical|Horizontal|HorizontalVertical|Mixed]")
    }

    fn parse(s: &str) -> (r: Result<ListTactic, ConfigError>) {
        match ListTactic::from_name(s) {
            Some(v) => Ok(v),
            None => Err(ConfigError::ConfigParseError),
        }
    }
}

impl SeparatorTactic {
    #[verifier::opaque]
    pub open spec fn spec_from_name(s: Seq<char>) -> Option<SeparatorTactic> {
        if s == "Always"@ {
            Some(SeparatorTactic::Always)
        } else if s == "Never"@ {
            Some(SeparatorTactic::Never)
        } else if s == "Vertical"@ {
            Some(SeparatorTactic::Vertical)
        } else {
            None
        }
    }

    /// The value whose name is exactly `s`.
    pub fn from_name(s: &str) -> (r: Option<SeparatorTactic>)
        ensures
            r == SeparatorTactic::spec_from_name(s@),
    {
        reveal(SeparatorTactic::spec_from_name);
        if str_eq(s, "Always") {
            Some(SeparatorTactic::Always)
        } else if str_eq(s, "Never") {
            Some(SeparatorTactic::Never)
        } else if str_eq(s, "Vertical") {
            Some(SeparatorTactic::Vertical)
        } else {
            None
        }
    }
}

impl ConfigType for SeparatorTactic {
    type ParseErr = ConfigError;

    open spec fn spec_doc_hint() -> Seq<char> {
        "[Always|Never|Vertical]"@
    }

    open spec fn spec_parses(s: Seq<char>) -> bool {
        SeparatorTactic::spec_from_name(s) is Some
    }

    open spec fn spec_parses_to(s: Seq<char>, v: SeparatorTactic) -> bool {
        SeparatorTactic::spec_from_name(s) == Some(v)
    }

    fn doc_hint() -> (r: String) {
        String::from_str("[Always|Never|Vertical]")
    }

    fn parse(s: &str) -> (r: Result<SeparatorTactic, ConfigError>) {
        match SeparatorTactic::from_name(s) {
            Some(v) => Ok(v),
            None => Err(ConfigError::ConfigParseError),
        }
    }
}

impl Density {
    pub open spec fn spec_to_list_tactic(self) -> ListTactic {
        match self {
            Density::Compressed => ListTactic::Mixed,
            Density::Tall | Density::CompressedIfEmpty => ListTactic::HorizontalVertical,
            Density::Vertical => ListTactic::Vertical,
        }
    }

    /// The list layout that this density asks for.
    pub fn to_list_tactic(self) -> (r: ListTactic)
        ensures
            r == self.spec_to_list_tactic(),
    {
        match self {
            Density::Compressed => ListTactic::Mixed,
            Density::Tall | Density::CompressedIfEmpty => ListTactic::HorizontalVertical,
            Density::Vertical => ListTactic::Vertical,
        }
    }
}

impl MultilineStyle {
    pub open spec fn spec_to_list_tactic(self) -> ListTactic {
        match self {
            MultilineStyle::PreferSingle => ListTactic::HorizontalVertical,
            MultilineStyle::ForceMulti => ListTactic::Vertical,
        }
    }

    /// The list layout that this style asks for.
    pub fn to_list_tactic(self) -> (r: ListTactic)
        ensures
            r == self.spec_to_list_tactic(),
    {
        match self {
            MultilineStyle::PreferSingle => ListTactic::HorizontalVertical,
            MultilineStyle::ForceMulti => ListTactic::Vertical,
        }
    }
}

impl Config {
    /// The documentation of every option, in declaration order.
    pub fn docs() -> (r: Vec<ConfigHelpItem>)
        ensures
            r@.len() == OPTION_COUNT,
            forall|i: int| 0 <= i < OPTION_COUNT ==> (#[trigger] r@[i])@ == spec_help(i),
    {
        let mut items: Vec<ConfigHelpItem> = Vec::new();
        let mut i: usize = 0;
        while i < OPTION_COUNT
            invariant
                i <= OPTION_COUNT,
                items@.len() == i,
                forall|k: int| 0 <= k < i ==> (#[trigger] items@[k])@ == spec_help(k),
            decreases OPTION_COUNT - i,
        {
            items.push(help_item(i));
            i += 1;
        }
        items
    }
}

/// The documentation of one option.
pub struct ConfigHelpItem {
    option_name: &'static str,
    doc_string: &'static str,
    variant_names: String,
    default: &'static str,
}

impl View for ConfigHelpItem {
    type V = (Seq<char>, Seq<char>, Seq<char>, Seq<char>);

    closed spec fn view(&self) -> (Seq<char>, Seq<char>, Seq<char>, Seq<char>) {
        (self.option_name@, self.doc_string@, self.variant_names@, self.default@)
    }
}

impl ConfigHelpItem {
    pub fn option_name(&self) -> (r: &'static str)
        ensures
            r@ == self@.0,
    {
        self.option_name
    }

    pub fn doc_string(&self) -> (r: &'static str)
        ensures
            r@ == self@.1,
    {
        self.doc_string
    }

    pub fn variant_names(&self) -> (r: &String)
        ensures
            r@ == self@.2,
    {
        &self.variant_names
    }

    pub fn default(&self) -> (r: &'static str)
        ensures
            r@ == self@.3,
    {
        self.default
    }
}

/// The options of a configuration, one variant each.
#[derive(Clone, Copy, Debug, PartialEq, Eq, Structural)]
pub enum ConfigOption {
    Verbose,
    SkipChildren,
    MaxWidth,
    IdealWidth,
    TabSpaces,
    FnCallWidth,
    StructLitWidth,
    ForceExplicitAbi,
    NewlineStyle,
    FnBraceStyle,
    ItemBraceStyle,
    ElseIfBraceStyle,
    ControlBraceStyle,
    ImplEmptySingleLine,
    FnEmptySingleLine,
    FnSingleLine,
    FnReturnIndent,
    FnArgsParenNewline,
    FnArgsDensity,
    FnArgsLayout,
    FnArgIndent,
    TypePunctuationDensity,
    WhereDensity,
    WhereIndent,
    WhereLayout,
    WherePredIndent,
    WhereTrailingComma,
    GenericsIndent,
    StructTrailingComma,
    StructLitTrailingComma,
    StructLitStyle,
    StructLitMultilineStyle,
    EnumTrailingComma,
    ReportTodo,
    ReportFixme,
    ChainBaseIndent,
    ChainIndent,
    ReorderImports,
    SingleLineIfElse,
    FormatStrings,
    ForceFormatStrings,
    ChainsOverflowLast,
    TakeSourceHints,
    HardTabs,
    WrapComments,
    NormaliseComments,
    WrapMatchArms,
    MatchBlockTrailingComma,
    MatchWildcardTrailingComma,
    WriteMode,
}

impl ConfigOption {
    /// The option named `key`.
    pub open spec fn spec_from_key(key: Seq<char>) -> Option<ConfigOption> {
        if key == "verbose"@ {
            Some(ConfigOption::Verbose)
        } else if key == "skip_children"@ {
            Some(ConfigOption::SkipChildren)
        } else if key == "max_width"@ {
            Some(ConfigOption::MaxWidth)
        } else if key == "ideal_width"@ {
            Some(ConfigOption::IdealWidth)
        } else if key == "tab_spaces"@ {
            Some(ConfigOption::TabSpaces)
        } else if key == "fn_call_width"@ {
            Some(ConfigOption::FnCallWidth)
        } else if key == "struct_lit_width"@ {
            Some(ConfigOption::StructLitWidth)
        } else if key == "force_explicit_abi"@ {
            Some(ConfigOption::ForceExplicitAbi)
        } else if key == "newline_style"@ {
            Some(ConfigOption::NewlineStyle)
        } else if key == "fn_brace_style"@ {
            Some(ConfigOption::FnBraceStyle)
        } else if key == "item_brace_style"@ {
            Some(ConfigOption::ItemBraceStyle)
        } else if key == "else_if_brace_style"@ {
            Some(ConfigOption::ElseIfBraceStyle)
        } else if key == "control_brace_style"@ {
            Some(ConfigOption::ControlBraceStyle)
        } else if key == "impl_empty_single_line"@ {
            Some(ConfigOption::ImplEmptySingleLine)
        } else if key == "fn_empty_single_line"@ {
            Some(ConfigOption::FnEmptySingleLine)
        } else if key == "fn_single_line"@ {
            Some(ConfigOption::FnSingleLine)
        } else if key == "fn_return_indent"@ {
            Some(ConfigOption::FnReturnIndent)
        } else if key == "fn_args_paren_newline"@ {
            Some(ConfigOption::FnArgsParenNewline)
        } else if key == "fn_args_density"@ {
            Some(ConfigOption::FnArgsDensity)
        } else if key == "fn_args_layout"@ {
            Some(ConfigOption::FnArgsLayout)
        } else if key == "fn_arg_indent"@ {
            Some(ConfigOption::FnArgIndent)
        } else if key == "type_punctuation_density"@ {
            Some(ConfigOption::TypePunctuationDensity)
        } else if key == "where_density"@ {
            Some(ConfigOption::WhereDensity)
        } else if key == "where_indent"@ {
            Some(ConfigOption::WhereIndent)
        } else if key == "where_layout"@ {
            Some(ConfigOption::WhereLayout)
        } else if key == "where_pred_indent"@ {
            Some(ConfigOption::WherePredIndent)
        } else if key == "where_trailing_comma"@ {
            Some(ConfigOption::WhereTrailingComma)
        } else if key == "generics_indent"@ {
            Some(ConfigOption::GenericsIndent)
        } else if key == "struct_trailing_comma"@ {
            Some(ConfigOption::StructTrailingComma)
        } else if key == "struct_lit_trailing_comma"@ {
            Some(ConfigOption::StructLitTrailingComma)
        } else if key == "struct_lit_style"@ {
            Some(ConfigOption::StructLitStyle)
        } else if key == "struct_lit_multiline_style"@ {
            Some(ConfigOption::StructLitMultilineStyle)
        } else if key == "enum_trailing_comma"@ {
            Some(ConfigOption::EnumTrailingComma)
        } else if key == "report_todo"@ {
            Some(ConfigOption::ReportTodo)
        } else if key == "report_fixme"@ {
            Some(ConfigOption::ReportFixme)
        } else if key == "chain_base_indent"@ {
            Some(ConfigOption::ChainBaseIndent)
        } else if key == "chain_indent"@ {
            Some(ConfigOption::ChainIndent)
        } else if key == "reorder_imports"@ {
            Some(ConfigOption::ReorderImports)
        } else if key == "single_line_if_else"@ {
            Some(ConfigOption::SingleLineIfElse)
        } else if key == "format_strings"@ {
            Some(ConfigOption::FormatStrings)
        } else if key == "force_format_strings"@ {
            Some(ConfigOption::ForceFormatStrings)
        } else if key == "chains_overflow_last"@ {
            Some(ConfigOption::ChainsOverflowLast)
        } else if key == "take_source_hints"@ {
            Some(ConfigOption::TakeSourceHints)
        } else if key == "hard_tabs"@ {
            Some(ConfigOption::HardTabs)
        } else if key == "wrap_comments"@ {
            Some(ConfigOption::WrapComments)
        } else if key == "normalise_comments"@ {
            Some(ConfigOption::NormaliseComments)
        } else if key == "wrap_match_arms"@ {
            Some(ConfigOption::WrapMatchArms)
        } else if key == "match_block_trailing_comma"@ {
            Some(ConfigOption::MatchBlockTrailingComma)
        } else if key == "match_wildcard_trailing_comma"@ {
            Some(ConfigOption::MatchWildcardTrailingComma)
        } else if key == "write_mode"@ {
            Some(ConfigOption::WriteMode)
        } else {
            None
        }
    }

    /// The option named `key`, if there is one.
    pub fn from_key(key: &str) -> (r: Option<ConfigOption>)
        ensures
            r == ConfigOption::spec_from_key(key@),
    {
        if str_eq(key, "verbose") {
            Some(ConfigOption::Verbose)
        } else if str_eq(key, "skip_children") {
            Some(ConfigOption::SkipChildren)
        } else if str_eq(key, "max_width") {
            Some(ConfigOption::MaxWidth)
        } else if str_eq(key, "ideal_width") {
            Some(ConfigOption::IdealWidth)
        } else if str_eq(key, "tab_spaces") {
            Some(ConfigOption::TabSpaces)
        } else if str_eq(key, "fn_call_width") {
            Some(ConfigOption::FnCallWidth)
        } else if str_eq(key, "struct_lit_width") {
            Some(ConfigOption::StructLitWidth)
        } else if str_eq(key, "force_explicit_abi") {
            Some(ConfigOption::ForceExplicitAbi)
        } else if str_eq(key, "newline_style") {
            Some(ConfigOption::NewlineStyle)
        } else if str_eq(key, "fn_brace_style") {
            Some(ConfigOption::FnBraceStyle)
        } else if str_eq(key, "item_brace_style") {
            Some(ConfigOption::ItemBraceStyle)
        } else if str_eq(key, "else_if_brace_style") {
            Some(ConfigOption::ElseIfBraceStyle)
        } else if str_eq(key, "control_brace_style") {
            Some(ConfigOption::ControlBraceStyle)
        } else if str_eq(key, "impl_empty_single_line") {
            Some(ConfigOption::ImplEmptySingleLine)
        } else if str_eq(key, "fn_empty_single_line") {
            Some(ConfigOption::FnEmptySingleLine)
        } else if str_eq(key, "fn_single_line") {
            Some(ConfigOption::FnSingleLine)
        } else if str_eq(key, "fn_return_indent") {
            Some(ConfigOption::FnReturnIndent)
        } else if str_eq(key, "fn_args_paren_newline") {
            Some(ConfigOption::FnArgsParenNewline)
        } else if str_eq(key, "fn_args_density") {
            Some(ConfigOption::FnArgsDensity)
        } else if str_eq(key, "fn_args_layout") {
            Some(ConfigOption::FnArgsLayout)
        } else if str_eq(key, "fn_arg_indent") {
            Some(ConfigOption::FnArgIndent)
        } else if str_eq(key, "type_punctuation_density") {
            Some(ConfigOption::TypePunctuationDensity)
        } else if str_eq(key, "where_density") {
            Some(ConfigOption::WhereDensity)
        } else if str_eq(key, "where_indent") {
            Some(ConfigOption::WhereIndent)
        } else if str_eq(key, "where_layout") {
            Some(ConfigOption::WhereLayout)
        } else if str_eq(key, "where_pred_indent") {
            Some(ConfigOption::WherePredIndent)
        } else if str_eq(key, "where_trailing_comma") {
            Some(ConfigOption::WhereTrailingComma)
        } else if str_eq(key, "generics_indent") {
            Some(ConfigOption::GenericsIndent)
        } else if str_eq(key, "struct_trailing_comma") {
            Some(ConfigOption::StructTrailingComma)
        } else if str_eq(key, "struct_lit_trailing_comma") {
            Some(ConfigOption::StructLitTrailingComma)
        } else if str_eq(key, "struct_lit_style") {
            Some(ConfigOption::StructLitStyle)
        } else if str_eq(key, "struct_lit_multiline_style") {
            Some(ConfigOption::StructLitMultilineStyle)
        } else if str_eq(key, "enum_trailing_comma") {
            Some(ConfigOption::EnumTrailingComma)
        } else if str_eq(key, "report_todo") {
            Some(ConfigOption::ReportTodo)
        } else if str_eq(key, "report_fixme") {
            Some(ConfigOption::ReportFixme)
        } else if str_eq(key, "chain_base_indent") {
            Some(ConfigOption::ChainBaseIndent)
        } else if str_eq(key, "chain_indent") {
            Some(ConfigOption::ChainIndent)
        } else if str_eq(key, "reorder_imports") {
            Some(ConfigOption::ReorderImports)
        } else if str_eq(key, "single_line_if_else") {
            Some(ConfigOption::SingleLineIfElse)
        } else if str_eq(key, "format_strings") {
            Some(ConfigOption::FormatStrings)
        } else if str_eq(key, "force_format_strings") {
            Some(ConfigOption::ForceFormatStrings)
        } else if str_eq(key, "chains_overflow_last") {
            Some(ConfigOption::ChainsOverflowLast)
        } else if str_eq(key, "take_source_hints") {
            Some(ConfigOption::TakeSourceHints)
        } else if str_eq(key, "hard_tabs") {
            Some(ConfigOption::HardTabs)
        } else if str_eq(key, "wrap_comments") {
            Some(ConfigOption::WrapComments)
        } else if str_eq(key, "normalise_comments") {
            Some(ConfigOption::NormaliseComments)
        } else if str_eq(key, "wrap_match_arms") {
            Some(ConfigOption::WrapMatchArms)
        } else if str_eq(key, "match_block_trailing_comma") {
            Some(ConfigOption::MatchBlockTrailingComma)
        } else if str_eq(key, "match_wildcard_trailing_comma") {
            Some(ConfigOption::MatchWildcardTrailingComma)
        } else if str_eq(key, "write_mode") {
            Some(ConfigOption::WriteMode)
        } else {
            None
        }
    }
}

/// The style options, each with a value of its kind.
#[derive(Clone, Copy, Debug, PartialEq, Eq, Structural)]
pub struct Config {
    /// Use verbose output
    pub verbose: bool,
    /// Don't reformat out of line modules
    pub skip_children: bool,
    /// Maximum width of each line
    pub max_width: usize,
    /// Ideal width of each line
    pub ideal_width: usize,
    /// Number of spaces per tab
    pub tab_spaces: usize,
    /// Maximum width of the args of a function call before falling back to vertical formatting
    pub fn_call_width: usize,
    /// Maximum width in the body of a struct lit before falling back to vertical formatting
    pub struct_lit_width: usize,
    /// Always print the abi for extern items
    pub force_explicit_abi: bool,
    /// Unix or Windows line endings
    pub newline_style: NewlineStyle,
    /// Brace style for functions
    pub fn_brace_style: BraceStyle,
    /// Brace style for structs and enums
    pub item_brace_style: BraceStyle,
    /// Brace style for if, else if, and else constructs
    pub else_if_brace_style: ElseIfBraceStyle,
    /// Brace style for match, loop, for, and while constructs
    pub control_brace_style: ControlBraceStyle,
    /// Put empty-body implementations on a single line
    pub impl_empty_single_line: bool,
    /// Put empty-body functions on a single line
    pub fn_empty_single_line: bool,
    /// Put single-expression functions on a single line
    pub fn_single_line: bool,
    /// Location of return type in function declaration
    pub fn_return_indent: ReturnIndent,
    /// If function argument parenthesis goes on a newline
    pub fn_args_paren_newline: bool,
    /// Argument density in functions
    pub fn_args_density: Density,
    /// Layout of function arguments
    pub fn_args_layout: FnArgLayoutStyle,
    /// Indent on function arguments
    pub fn_arg_indent: BlockIndentStyle,
    /// Determines if '+' or '=' are wrapped in spaces in the punctuation of types
    pub type_punctuation_density: TypeDensity,
    /// Density of a where clause
    pub where_density: Density,
    /// Indentation of a where clause
    pub where_indent: BlockIndentStyle,
    /// Element layout inside a where clause
    pub where_layout: ListTactic,
    /// Indentation style of a where predicate
    pub where_pred_indent: BlockIndentStyle,
    /// Put a trailing comma on where clauses
    pub where_trailing_comma: bool,
    /// Indentation of generics
    pub generics_indent: BlockIndentStyle,
    /// If there is a trailing comma on structs
    pub struct_trailing_comma: SeparatorTactic,
    /// If there is a trailing comma on literal structs
    pub struct_lit_trailing_comma: SeparatorTactic,
    /// Style of struct definition
    pub struct_lit_style: StructLitStyle,
    /// Multiline style on literal structs
    pub struct_lit_multiline_style: MultilineStyle,
    /// Put a trailing comma on enum declarations
    pub enum_trailing_comma: bool,
    /// Report all, none or unnumbered occurrences of TODO in source file comments
    pub report_todo: ReportTactic,
    /// Report all, none or unnumbered occurrences of FIXME in source file comments
    pub report_fixme: ReportTactic,
    /// Indent on chain base
    pub chain_base_indent: BlockIndentStyle,
    /// Indentation of chain
    pub chain_indent: BlockIndentStyle,
    /// Reorder import statements alphabetically
    pub reorder_imports: bool,
    /// Put else on same line as closing brace for if statements
    pub single_line_if_else: bool,
    /// Format string literals where necessary
    pub format_strings: bool,
    /// Always format string literals
    pub force_format_strings: bool,
    /// Allow last call in method chain to break the line
    pub chains_overflow_last: bool,
    /// Retain some formatting characteristics from the source code
    pub take_source_hints: bool,
    /// Use tab characters for indentation, spaces for alignment
    pub hard_tabs: bool,
    /// Break comments to fit on the line
    pub wrap_comments: bool,
    /// Convert /* */ comments to // comments where possible
    pub normalise_comments: bool,
    /// Wrap multiline match arms in blocks
    pub wrap_match_arms: bool,
    /// Put a trailing comma after a block based match arm (non-block arms are not affected)
    pub match_block_trailing_comma: bool,
    /// Put a trailing comma after a wildcard arm
    pub match_wildcard_trailing_comma: bool,
    /// What Write Mode to use when none is supplied: Replace, Overwrite, Display, Diff, Coverage
    pub write_mode: WriteMode,
}

/// A partial configuration, as a configuration document gives it: the
/// options it leaves out are `None`.
#[derive(Clone, Copy, Debug)]
pub struct ParsedConfig {
    pub verbose: Option<bool>,
    pub skip_children: Option<bool>,
    pub max_width: Option<usize>,
    pub ideal_width: Option<usize>,
    pub tab_spaces: Option<usize>,
    pub fn_call_width: Option<usize>,
    pub struct_lit_width: Option<usize>,
    pub force_explicit_abi: Option<bool>,
    pub newline_style: Option<NewlineStyle>,
    pub fn_brace_style: Option<BraceStyle>,
    pub item_brace_style: Option<BraceStyle>,
    pub else_if_brace_style: Option<ElseIfBraceStyle>,
    pub control_brace_style: Option<ControlBraceStyle>,
    pub impl_empty_single_line: Option<bool>,
    pub fn_empty_single_line: Option<bool>,
    pub fn_single_line: Option<bool>,
    pub fn_return_indent: Option<ReturnIndent>,
    pub fn_args_paren_newline: Option<bool>,
    pub fn_args_density: Option<Density>,
    pub fn_args_layout: Option<FnArgLayoutStyle>,
    pub fn_arg_indent: Option<BlockIndentStyle>,
    pub type_punctuation_density: Option<TypeDensity>,
    pub where_density: Option<Density>,
    pub where_indent: Option<BlockIndentStyle>,
    pub where_layout: Option<ListTactic>,
    pub where_pred_indent: Option<BlockIndentStyle>,
    pub where_trailing_comma: Option<bool>,
    pub generics_indent: Option<BlockIndentStyle>,
    pub struct_trailing_comma: Option<SeparatorTactic>,
    pub struct_lit_trailing_comma: Option<SeparatorTactic>,
    pub struct_lit_style: Option<StructLitStyle>,
    pub struct_lit_multiline_style: Option<MultilineStyle>,
    pub enum_trailing_comma: Option<bool>,
    pub report_todo: Option<ReportTactic>,
    pub report_fixme: Option<ReportTactic>,
    pub chain_base_indent: Option<BlockIndentStyle>,
    pub chain_indent: Option<BlockIndentStyle>,
    pub reorder_imports: Option<bool>,
    pub single_line_if_else: Option<bool>,
    pub format_strings: Option<bool>,
    pub force_format_strings: Option<bool>,
    pub chains_overflow_last: Option<bool>,
    pub take_source_hints: Option<bool>,
    pub hard_tabs: Option<bool>,
    pub wrap_comments: Option<bool>,
    pub normalise_comments: Option<bool>,
    pub wrap_match_arms: Option<bool>,
    pub match_block_trailing_comma: Option<bool>,
    pub match_wildcard_trailing_comma: Option<bool>,
    pub write_mode: Option<WriteMode>,
}

impl Config {
    pub open spec fn spec_default() -> Config {
        Config {
            verbose: false,
            skip_children: false,
            max_width: 100,
            ideal_width: 80,
            tab_spaces: 4,
            fn_call_width: 60,
            struct_lit_width: 16,
            force_explicit_abi: true,
            newline_style: NewlineStyle::Unix,
            fn_brace_style: BraceStyle::SameLineWhere,
            item_brace_style: BraceStyle::SameLineWhere,
            else_if_brace_style: ElseIfBraceStyle::AlwaysSameLine,
            control_brace_style: ControlBraceStyle::AlwaysSameLine,
            impl_empty_single_line: true,
            fn_empty_single_line: true,
            fn_single_line: false,
            fn_return_indent: ReturnIndent::WithArgs,
            fn_args_paren_newline: true,
            fn_args_density: Density::Tall,
            fn_args_layout: FnArgLayoutStyle::Visual,
            fn_arg_indent: BlockIndentStyle::Visual,
            type_punctuation_density: TypeDensity::Wide,
            where_density: Density::CompressedIfEmpty,
            where_indent: BlockIndentStyle::Tabbed,
            where_layout: ListTactic::Vertical,
            where_pred_indent: BlockIndentStyle::Visual,
            where_trailing_comma: false,
            generics_indent: BlockIndentStyle::Visual,
            struct_trailing_comma: SeparatorTactic::Vertical,
            struct_lit_trailing_comma: SeparatorTactic::Vertical,
            struct_lit_style: StructLitStyle::Block,
            struct_lit_multiline_style: MultilineStyle::PreferSingle,
            enum_trailing_comma: true,
            report_todo: ReportTactic::Never,
            report_fixme: ReportTactic::Never,
            chain_base_indent: BlockIndentStyle::Visual,
            chain_indent: BlockIndentStyle::Visual,
            reorder_imports: false,
            single_line_if_else: false,
            format_strings: true,
            force_format_strings: false,
            chains_overflow_last: true,
            take_source_hints: true,
            hard_tabs: false,
            wrap_comments: false,
            normalise_comments: true,
            wrap_match_arms: true,
            match_block_trailing_comma: false,
            match_wildcard_trailing_comma: true,
            write_mode: WriteMode::Replace,
        }
    }

    /// `self` with every option that `parsed` gives replaced by its value there.
    pub open spec fn spec_fill(self, parsed: ParsedConfig) -> Config {
        Config {
            verbose: match parsed.verbose {
                Some(v) => v,
                None => self.verbose,
            },
            skip_children: match parsed.skip_children {
                Some(v) => v,
                None => self.skip_children,
            },
            max_width: match parsed.max_width {
                Some(v) => v,
                None => self.max_width,
            },
            ideal_width: match parsed.ideal_width {
                Some(v) => v,
                None => self.ideal_width,
            },
            tab_spaces: match parsed.tab_spaces {
                Some(v) => v,
                None => self.tab_spaces,
            },
            fn_call_width: match parsed.fn_call_width {
                Some(v) => v,
                None => self.fn_call_width,
            },
            struct_lit_width: match parsed.struct_lit_width {
                Some(v) => v,
                None => self.struct_lit_width,
            },
            force_explicit_abi: match parsed.force_explicit_abi {
                Some(v) => v,
                None => self.force_explicit_abi,
            },
            newline_style: match parsed.newline_style {
                Some(v) => v,
                None => self.newline_style,
            },
            fn_brace_style: match parsed.fn_brace_style {
                Some(v) => v,
                None => self.fn_brace_style,
            },
            item_brace_style: match parsed.item_brace_style {
                Some(v) => v,
                None => self.item_brace_style,
            },
            else_if_brace_style: match parsed.else_if_brace_style {
                Some(v) => v,
                None => self.else_if_brace_style,
            },
            control_brace_style: match parsed.control_brace_style {
                Some(v) => v,
                None => self.control_brace_style,
            },
            impl_empty_single_line: match parsed.impl_empty_single_line {
                Some(v) => v,
                None => self.impl_empty_single_line,
            },
            fn_empty_single_line: match parsed.fn_empty_single_line {
                Some(v) => v,
                None => self.fn_empty_single_line,
            },
            fn_single_line: match parsed.fn_single_line {
                Some(v) => v,
                None => self.fn_single_line,
            },
            fn_return_indent: match parsed.fn_return_indent {
                Some(v) => v,
                None => self.fn_return_indent,
            },
            fn_args_paren_newline: match parsed.fn_args_paren_newline {
                Some(v) => v,
                None => self.fn_args_paren_newline,
            },
            fn_args_density: match parsed.fn_args_density {
                Some(v) => v,
                None => self.fn_args_density,
            },
            fn_args_layout: match parsed.fn_args_layout {
                Some(v) => v,
                None => self.fn_args_layout,
            },
            fn_arg_indent: match parsed.fn_arg_indent {
                Some(v) => v,
                None => self.fn_arg_indent,
            },
            type_punctuation_density: match parsed.type_punctuation_density {
                Some(v) => v,
                None => self.type_punctuation_density,
            },
            where_density: match parsed.where_density {
                Some(v) => v,
                None => self.where_density,
            },
            where_indent: match parsed.where_indent {
                Some(v) => v,
                None => self.where_indent,
            },
            where_layout: match parsed.where_layout {
                Some(v) => v,
                None => self.where_layout,
            },
            where_pred_indent: match parsed.where_pred_indent {
                Some(v) => v,
                None => self.where_pred_indent,
            },
            where_trailing_comma: match parsed.where_trailing_comma {
                Some(v) => v,
                None => self.where_trailing_comma,
            },
            generics_indent: match parsed.generics_indent {
                Some(v) => v,
                None => self.generics_indent,
            },
            struct_trailing_comma: match parsed.struct_trailing_comma {
                Some(v) => v,
                None => self.struct_trailing_comma,
            },
            struct_lit_trailing_comma: match parsed.struct_lit_trailing_comma {
                Some(v) => v,
                None => self.struct_lit_trailing_comma,
            },
            struct_lit_style: match parsed.struct_lit_style {
                Some(v) => v,
                None => self.struct_lit_style,
            },
            struct_lit_multiline_style: match parsed.struct_lit_multiline_style {
                Some(v) => v,
                None => self.struct_lit_multiline_style,
            },
            enum_trailing_comma: match parsed.enum_trailing_comma {
                Some(v) => v,
                None => self.enum_trailing_comma,
            },
            report_todo: match parsed.report_todo {
                Some(v) => v,
                None => self.report_todo,
            },
            report_fixme: match parsed.report_fixme {
                Some(v) => v,
                None => self.report_fixme,
            },
            chain_base_indent: match parsed.chain_base_indent {
                Some(v) => v,
                None => self.chain_base_indent,
            },
            chain_indent: match parsed.chain_indent {
                Some(v) => v,
                None => self.chain_indent,
            },
            reorder_imports: match parsed.reorder_imports {
                Some(v) => v,
                None => self.reorder_imports,
            },
            single_line_if_else: match parsed.single_line_if_else {
                Some(v) => v,
                None => self.single_line_if_else,
            },
            format_strings: match parsed.format_strings {
                Some(v) => v,
                None => self.format_strings,
            },
            force_format_strings: match parsed.force_format_strings {
                Some(v) => v,
                None => self.force_format_strings,
            },
            chains_overflow_last: match parsed.chains_overflow_last {
                Some(v) => v,
                None => self.chains_overflow_last,
            },
            take_source_hints: match parsed.take_source_hints {
                Some(v) => v,
                None => self.take_source_hints,
            },
            hard_tabs: match parsed.hard_tabs {
                Some(v) => v,
                None => self.hard_tabs,
            },
            wrap_comments: match parsed.wrap_comments {
                Some(v) => v,
                None => self.wrap_comments,
            },
            normalise_comments: match parsed.normalise_comments {
                Some(v) => v,
                None => self.normalise_comments,
            },
            wrap_match_arms: match parsed.wrap_match_arms {
                Some(v) => v,
                None => self.wrap_match_arms,
            },
            match_block_trailing_comma: match parsed.match_block_trailing_comma {
                Some(v) => v,
                None => self.match_block_trailing_comma,
            },
            match_wildcard_trailing_comma: match parsed.match_wildcard_trailing_comma {
                Some(v) => v,
                None => self.match_wildcard_trailing_comma,
            },
            write_mode: match parsed.write_mode {
                Some(v) => v,
                None => self.write_mode,
            },
        }
    }

    /// `self` with every option that `parsed` gives replaced by its value there.
    pub fn fill_from_parsed_config(self, parsed: ParsedConfig) -> (r: Config)
        ensures
            r == self.spec_fill(parsed),
    {
        Config {
            verbose: match parsed.verbose {
                Some(v) => v,
                None => self.verbose,
            },
            skip_children: match parsed.skip_children {
                Some(v) => v,
                None => self.skip_children,
            },
            max_width: match parsed.max_width {
                Some(v) => v,
                None => self.max_width,
            },
            ideal_width: match parsed.ideal_width {
                Some(v) => v,
                None => self.ideal_width,
            },
            tab_spaces: match parsed.tab_spaces {
                Some(v) => v,
                None => self.tab_spaces,
            },
            fn_call_width: match parsed.fn_call_width {
                Some(v) => v,
                None => self.fn_call_width,
            },
            struct_lit_width: match parsed.struct_lit_width {
                Some(v) => v,
                None => self.struct_lit_width,
            },
            force_explicit_abi: match parsed.force_explicit_abi {
                Some(v) => v,
                None => self.force_explicit_abi,
            },
            newline_style: match parsed.newline_style {
                Some(v) => v,
                None => self.newline_style,
            },
            fn_brace_style: match parsed.fn_brace_style {
                Some(v) => v,
                None => self.fn_brace_style,
            },
            item_brace_style: match parsed.item_brace_style {
                Some(v) => v,
                None => self.item_brace_style,
            },
            else_if_brace_style: match parsed.else_if_brace_style {
                Some(v) => v,
                None => self.else_if_brace_style,
            },
            control_brace_style: match parsed.control_brace_style {
                Some(v) => v,
                None => self.control_brace_style,
            },
            impl_empty_single_line: match parsed.impl_empty_single_line {
                Some(v) => v,
                None => self.impl_empty_single_line,
            },
            fn_empty_single_line: match parsed.fn_empty_single_line {
                Some(v) => v,
                None => self.fn_empty_single_line,
            },
            fn_single_line: match parsed.fn_single_line {
                Some(v) => v,
                None => self.fn_single_line,
            },
            fn_return_indent: match parsed.fn_return_indent {
                Some(v) => v,
                None => self.fn_return_indent,
            },
            fn_args_paren_newline: match parsed.fn_args_paren_newline {
                Some(v) => v,
                None => self.fn_args_paren_newline,
            },
            fn_args_density: match parsed.fn_args_density {
                Some(v) => v,
                None => self.fn_args_density,
            },
            fn_args_layout: match parsed.fn_args_layout {
                Some(v) => v,
                None => self.fn_args_layout,
            },
            fn_arg_indent: match parsed.fn_arg_indent {
                Some(v) => v,
                None => self.fn_arg_indent,
            },
            type_punctuation_density: match parsed.type_punctuation_density {
                Some(v) => v,
                None => self.type_punctuation_density,
            },
            where_density: match parsed.where_density {
                Some(v) => v,
                None => self.where_density,
            },
            where_indent: match parsed.where_indent {
                Some(v) => v,
                None => self.where_indent,
            },
            where_layout: match parsed.where_layout {
                Some(v) => v,
                None => self.where_layout,
            },
            where_pred_indent: match parsed.where_pred_indent {
                Some(v) => v,
                None => self.where_pred_indent,
            },
            where_trailing_comma: match parsed.where_trailing_comma {
                Some(v) => v,
                None => self.where_trailing_comma,
            },
            generics_indent: match parsed.generics_indent {
                Some(v) => v,
                None => self.generics_indent,
            },
            struct_trailing_comma: match parsed.struct_trailing_comma {
                Some(v) => v,
                None => self.struct_trailing_comma,
            },
            struct_lit_trailing_comma: match parsed.struct_lit_trailing_comma {
                Some(v) => v,
                None => self.struct_lit_trailing_comma,
            },
            struct_lit_style: match parsed.struct_lit_style {
                Some(v) => v,
                None => self.struct_lit_style,
            },
            struct_lit_multiline_style: match parsed.struct_lit_multiline_style {
                Some(v) => v,
                None => self.struct_lit_multiline_style,
            },
            enum_trailing_comma: match parsed.enum_trailing_comma {
                Some(v) => v,
                None => self.enum_trailing_comma,
            },
            report_todo: match parsed.report_todo {
                Some(v) => v,
                None => self.report_todo,
            },
            report_fixme: match parsed.report_fixme {
                Some(v) => v,
                None => self.report_fixme,
            },
            chain_base_indent: match parsed.chain_base_indent {
                Some(v) => v,
                None => self.chain_base_indent,
            },
            chain_indent: match parsed.chain_indent {
                Some(v) => v,
                None => self.chain_indent,
            },
            reorder_imports: match parsed.reorder_imports {
                Some(v) => v,
                None => self.reorder_imports,
            },
            single_line_if_else: match parsed.single_line_if_else {
                Some(v) => v,
                None => self.single_line_if_else,
            },
            format_strings: match parsed.format_strings {
                Some(v) => v,
                None => self.format_strings,
            },
            force_format_strings: match parsed.force_format_strings {
                Some(v) => v,
                None => self.force_format_strings,
            },
            chains_overflow_last: match parsed.chains_overflow_last {
                Some(v) => v,
                None => self.chains_overflow_last,
            },
            take_source_hints: match parsed.take_source_hints {
                Some(v) => v,
                None => self.take_source_hints,
            },
            hard_tabs: match parsed.hard_tabs {
                Some(v) => v,
                None => self.hard_tabs,
            },
            wrap_comments: match parsed.wrap_comments {
                Some(v) => v,
                None => self.wrap_comments,
            },
            normalise_comments: match parsed.normalise_comments {
                Some(v) => v,
                None => self.normalise_comments,
            },
            wrap_match_arms: match parsed.wrap_match_arms {
                Some(v) => v,
                None => self.wrap_match_arms,
            },
            match_block_trailing_comma: match parsed.match_block_trailing_comma {
                Some(v) => v,
                None => self.match_block_trailing_comma,
            },
            match_wildcard_trailing_comma: match parsed.match_wildcard_trailing_comma {
                Some(v) => v,
                None => self.match_wildcard_trailing_comma,
            },
            write_mode: match parsed.write_mode {
                Some(v) => v,
                None => self.write_mode,
            },
        }
    }

}

impl Default for Config {
    fn default() -> (r: Config)
        ensures
            r == Config::spec_default(),
    {
        Config {
            verbose: false,
            skip_children: false,
            max_width: 100,
            ideal_width: 80,
            tab_spaces: 4,
            fn_call_width: 60,
            struct_lit_width: 16,
            force_explicit_abi: true,
            newline_style: NewlineStyle::Unix,
            fn_brace_style: BraceStyle::SameLineWhere,
            item_brace_style: BraceStyle::SameLineWhere,
            else_if_brace_style: ElseIfBraceStyle::AlwaysSameLine,
            control_brace_style: ControlBraceStyle::AlwaysSameLine,
            impl_empty_single_line: true,
            fn_empty_single_line: true,
            fn_single_line: false,
            fn_return_indent: ReturnIndent::WithArgs,
            fn_args_paren_newline: true,
            fn_args_density: Density::Tall,
            fn_args_layout: FnArgLayoutStyle::Visual,
            fn_arg_indent: BlockIndentStyle::Visual,
            type_punctuation_density: TypeDensity::Wide,
            where_density: Density::CompressedIfEmpty,
            where_indent: BlockIndentStyle::Tabbed,
            where_layout: ListTactic::Vertical,
            where_pred_indent: BlockIndentStyle::Visual,
            where_trailing_comma: false,
            generics_indent: BlockIndentStyle::Visual,
            struct_trailing_comma: SeparatorTactic::Vertical,
            struct_lit_trailing_comma: SeparatorTactic::Vertical,
            struct_lit_style: StructLitStyle::Block,
            struct_lit_multiline_style: MultilineStyle::PreferSingle,
            enum_trailing_comma: true,
            report_todo: ReportTactic::Never,
            report_fixme: ReportTactic::Never,
            chain_base_indent: BlockIndentStyle::Visual,
            chain_indent: BlockIndentStyle::Visual,
            reorder_imports: false,
            single_line_if_else: false,
            format_strings: true,
            force_format_strings: false,
            chains_overflow_last: true,
            take_source_hints: true,
            hard_tabs: false,
            wrap_comments: false,
            normalise_comments: true,
            wrap_match_arms: true,
            match_block_trailing_comma: false,
            match_wildcard_trailing_comma: true,
            write_mode: WriteMode::Replace,
        }
    }
}

impl ParsedConfig {
    pub open spec fn spec_empty() -> ParsedConfig {
        ParsedConfig {
            verbose: None,
            skip_children: None,
            max_width: None,
            ideal_width: None,
            tab_spaces: None,
            fn_call_width: None,
            struct_lit_width: None,
            force_explicit_abi: None,
            newline_style: None,
            fn_brace_style: None,
            item_brace_style: None,
            else_if_brace_style: None,
            control_brace_style: None,
            impl_empty_single_line: None,
            fn_empty_single_line: None,
            fn_single_line: None,
            fn_return_indent: None,
            fn_args_paren_newline: None,
            fn_args_density: None,
            fn_args_layout: None,
            fn_arg_indent: None,
            type_punctuation_density: None,
            where_density: None,
            where_indent: None,
            where_layout: None,
            where_pred_indent: None,
            where_trailing_comma: None,
            generics_indent: None,
            struct_trailing_comma: None,
            struct_lit_trailing_comma: None,
            struct_lit_style: None,
            struct_lit_multiline_style: None,
            enum_trailing_comma: None,
            report_todo: None,
            report_fixme: None,
            chain_base_indent: None,
            chain_indent: None,
            reorder_imports: None,
            single_line_if_else: None,
            format_strings: None,
            force_format_strings: None,
            chains_overflow_last: None,
            take_source_hints: None,
            hard_tabs: None,
            wrap_comments: None,
            normalise_comments: None,
            wrap_match_arms: None,
            match_block_trailing_comma: None,
            match_wildcard_trailing_comma: None,
            write_mode: None,
        }
    }

    /// A partial configuration that gives no option.
    pub fn empty() -> (r: ParsedConfig)
        ensures
            r == ParsedConfig::spec_empty(),
    {
        ParsedConfig {
            verbose: None,
            skip_children: None,
            max_width: None,
            ideal_width: None,
            tab_spaces: None,
            fn_call_width: None,
            struct_lit_width: None,
            force_explicit_abi: None,
            newline_style: None,
            fn_brace_style: None,
            item_brace_style: None,
            else_if_brace_style: None,
            control_brace_style: None,
            impl_empty_single_line: None,
            fn_empty_single_line: None,
            fn_single_line: None,
            fn_return_indent: None,
            fn_args_paren_newline: None,
            fn_args_density: None,
            fn_args_layout: None,
            fn_arg_indent: None,
            type_punctuation_density: None,
            where_density: None,
            where_indent: None,
            where_layout: None,
            where_pred_indent: None,
            where_trailing_comma: None,
            generics_indent: None,
            struct_trailing_comma: None,
            struct_lit_trailing_comma: None,
            struct_lit_style: None,
            struct_lit_multiline_style: None,
            enum_trailing_comma: None,
            report_todo: None,
            report_fixme: None,
            chain_base_indent: None,
            chain_indent: None,
            reorder_imports: None,
            single_line_if_else: None,
            format_strings: None,
            force_format_strings: None,
            chains_overflow_last: None,
            take_source_hints: None,
            hard_tabs: None,
            wrap_comments: None,
            normalise_comments: None,
            wrap_match_arms: None,
            match_block_trailing_comma: None,
            match_wildcard_trailing_comma: None,
            write_mode: None,
        }
    }

}

/// The documentation of option number `i`: its name, its description, the
/// values it takes and its default.
pub open spec fn spec_help(i: int) -> (Seq<char>, Seq<char>, Seq<char>, Seq<char>) {
    if i == 0 {
        ("verbose"@, "Use verbose output"@, <bool as ConfigType>::spec_doc_hint(), "false"@)
    } else if i == 1 {
        ("skip_children"@, "Don't reformat out of line modules"@, <bool as ConfigType>::spec_doc_hint(), "false"@)
    } else if i == 2 {
        ("max_width"@, "Maximum width of each line"@, <usize as ConfigType>::spec_doc_hint(), "100"@)
    } else if i == 3 {
        ("ideal_width"@, "Ideal width of each line"@, <usize as ConfigType>::spec_doc_hint(), "80"@)
    } else if i == 4 {
        ("tab_spaces"@, "Number of spaces per tab"@, <usize as ConfigType>::spec_doc_hint(), "4"@)
    } else if i == 5 {
        ("fn_call_width"@, "Maximum width of the args of a function call before falling back to vertical formatting"@, <usize as ConfigType>::spec_doc_hint(), "60"@)
    } else if i == 6 {
        ("struct_lit_width"@, "Maximum width in the body of a struct lit before falling back to vertical formatting"@, <usize as ConfigType>::spec_doc_hint(), "16"@)
    } else if i == 7 {
        ("force_explicit_abi"@, "Always print the abi for extern items"@, <bool as ConfigType>::spec_doc_hint(), "true"@)
    } else if i == 8 {
        ("newline_style"@, "Unix or Windows line endings"@, <NewlineStyle as ConfigType>::spec_doc_hint(), "Unix"@)
    } else if i == 9 {
        ("fn_brace_style"@, "Brace style for functions"@, <BraceStyle as ConfigType>::spec_doc_hint(), "SameLineWhere"@)
    } else if i == 10 {
        ("item_brace_style"@, "Brace style for structs and enums"@, <BraceStyle as ConfigType>::spec_doc_hint(), "SameLineWhere"@)
    } else if i == 11 {
        ("else_if_brace_style"@, "Brace style for if, else if, and else constructs"@, <ElseIfBraceStyle as ConfigType>::spec_doc_hint(), "AlwaysSameLine"@)
    } else if i == 12 {
        ("control_brace_style"@, "Brace style for match, loop, for, and while constructs"@, <ControlBraceStyle as ConfigType>::spec_doc_hint(), "AlwaysSameLine"@)
    } else if i == 13 {
        ("impl_empty_single_line"@, "Put empty-body implementations on a single line"@, <bool as ConfigType>::spec_doc_hint(), "true"@)
    } else if i == 14 {
        ("fn_empty_single_line"@, "Put empty-body functions on a single line"@, <bool as ConfigType>::spec_doc_hint(), "true"@)
    } else if i == 15 {
        ("fn_single_line"@, "Put single-expression functions on a single line"@, <bool as ConfigType>::spec_doc_hint(), "false"@)
    } else if i == 16 {
        ("fn_return_indent"@, "Location of return type in function declaration"@, <ReturnIndent as ConfigType>::spec_doc_hint(), "WithArgs"@)
    } else if i == 17 {
        ("fn_args_paren_newline"@, "If function argument parenthesis goes on a newline"@, <bool as ConfigType>::spec_doc_hint(), "true"@)
    } else if i == 18 {
        ("fn_args_density"@, "Argument density in functions"@, <Density as ConfigType>::spec_doc_hint(), "Tall"@)
    } else if i == 19 {
        ("fn_args_layout"@, "Layout of function arguments"@, <FnArgLayoutStyle as ConfigType>::spec_doc_hint(), "Visual"@)
    } else if i == 20 {
        ("fn_arg_indent"@, "Indent on function arguments"@, <BlockIndentStyle as ConfigType>::spec_doc_hint(), "Visual"@)
    } else if i == 21 {
        ("type_punctuation_density"@, "Determines if '+' or '=' are wrapped in spaces in the punctuation of types"@, <TypeDensity as ConfigType>::spec_doc_hint(), "Wide"@)
    } else if i == 22 {
        ("where_density"@, "Density of a where clause"@, <Density as ConfigType>::spec_doc_hint(), "CompressedIfEmpty"@)
    } else if i == 23 {
        ("where_indent"@, "Indentation of a where clause"@, <BlockIndentStyle as ConfigType>::spec_doc_hint(), "Tabbed"@)
    } else if i == 24 {
        ("where_layout"@, "Element layout inside a where clause"@, <ListTactic as ConfigType>::spec_doc_hint(), "Vertical"@)
    } else if i == 25 {
        ("where_pred_indent"@, "Indentation style of a where predicate"@, <BlockIndentStyle as ConfigType>::spec_doc_hint(), "Visual"@)
    } else if i == 26 {
        ("where_trailing_comma"@, "Put a trailing comma on where clauses"@, <bool as ConfigType>::spec_doc_hint(), "false"@)
    } else if i == 27 {
        ("generics_indent"@, "Indentation of generics"@, <BlockIndentStyle as ConfigType>::spec_doc_hint(), "Visual"@)
    } else if i == 28 {
        ("struct_trailing_comma"@, "If there is a trailing comma on structs"@, <SeparatorTactic as ConfigType>::spec_doc_hint(), "Vertical"@)
    } else if i == 29 {
        ("struct_lit_trailing_comma"@, "If there is a trailing comma on literal structs"@, <SeparatorTactic as ConfigType>::spec_doc_hint(), "Vertical"@)
    } else if i == 30 {
        ("struct_lit_style"@, "Style of struct definition"@, <StructLitStyle as ConfigType>::spec_doc_hint(), "Block"@)
    } else if i == 31 {
        ("struct_lit_multiline_style"@, "Multiline style on literal structs"@, <MultilineStyle as ConfigType>::spec_doc_hint(), "PreferSingle"@)
    } else if i == 32 {
        ("enum_trailing_comma"@, "Put a trailing comma on enum declarations"@, <bool as ConfigType>::spec_doc_hint(), "true"@)
    } else if i == 33 {
        ("report_todo"@, "Report all, none or unnumbered occurrences of TODO in source file comments"@, <ReportTactic as ConfigType>::spec_doc_hint(), "Never"@)
    } else if i == 34 {
        ("report_fixme"@, "Report all, none or unnumbered occurrences of FIXME in source file comments"@, <ReportTactic as ConfigType>::spec_doc_hint(), "Never"@)
    } else if i == 35 {
        ("chain_base_indent"@, "Indent on chain base"@, <BlockIndentStyle as ConfigType>::spec_doc_hint(), "Visual"@)
    } else if i == 36 {
        ("chain_indent"@, "Indentation of chain"@, <BlockIndentStyle as ConfigType>::spec_doc_hint(), "Visual"@)
    } else if i == 37 {
        ("reorder_imports"@, "Reorder import statements alphabetically"@, <bool as ConfigType>::spec_doc_hint(), "false"@)
    } else if i == 38 {
        ("single_line_if_else"@, "Put else on same line as closing brace for if statements"@, <bool as ConfigType>::spec_doc_hint(), "false"@)
    } else if i == 39 {
        ("format_strings"@, "Format string literals where necessary"@, <bool as ConfigType>::spec_doc_hint(), "true"@)
    } else if i == 40 {
        ("force_format_strings"@, "Always format string literals"@, <bool as ConfigType>::spec_doc_hint(), "false"@)
    } else if i == 41 {
        ("chains_overflow_last"@, "Allow last call in method chain to break the line"@, <bool as ConfigType>::spec_doc_hint(), "true"@)
    } else if i == 42 {
        ("take_source_hints"@, "Retain some formatting characteristics from the source code"@, <bool as ConfigType>::spec_doc_hint(), "true"@)
    } else if i == 43 {
        ("hard_tabs"@, "Use tab characters for indentation, spaces for alignment"@, <bool as ConfigType>::spec_doc_hint(), "false"@)
    } else if i == 44 {
        ("wrap_comments"@, "Break comments to fit on the line"@, <bool as ConfigType>::spec_doc_hint(), "false"@)
    } else if i == 45 {
        ("normalise_comments"@, "Convert /* */ comments to // comments where possible"@, <bool as ConfigType>::spec_doc_hint(), "true"@)
    } else if i == 46 {
        ("wrap_match_arms"@, "Wrap multiline match arms in blocks"@, <bool as ConfigType>::spec_doc_hint(), "true"@)
    } else if i == 47 {
        ("match_block_trailing_comma"@, "Put a trailing comma after a block based match arm (non-block arms are not affected)"@, <bool as ConfigType>::spec_doc_hint(), "false"@)
    } else if i == 48 {
        ("match_wildcard_trailing_comma"@, "Put a trailing comma after a wildcard arm"@, <bool as ConfigType>::spec_doc_hint(), "true"@)
    } else if i == 49 {
        ("write_mode"@, "What Write Mode to use when none is supplied: Replace, Overwrite, Display, Diff, Coverage"@, <WriteMode as ConfigType>::spec_doc_hint(), "Replace"@)
    } else {
        (Seq::empty(), Seq::empty(), Seq::empty(), Seq::empty())
    }
}

pub const OPTION_COUNT: usize = 50;

fn help_item(i: usize) -> (r: ConfigHelpItem)
    requires
        i < OPTION_COUNT,
    ensures
        r@ == spec_help(i as int),
{
    if i == 0 {
        ConfigHelpItem {
            option_name: "verbose",
            doc_string: "Use verbose output",
            variant_names: <bool as ConfigType>::doc_hint(),
            default: "false",
        }
    } else if i == 1 {
        ConfigHelpItem {
            option_name: "skip_children",
            doc_string: "Don't reformat out of line modules",
            variant_names: <bool as ConfigType>::doc_hint(),
            default: "false",
        }
    } else if i == 2 {
        ConfigHelpItem {
            option_name: "max_width",
            doc_string: "Maximum width of each line",
            variant_names: <usize as ConfigType>::doc_hint(),
            default: "100",
        }
    } else if i == 3 {
        ConfigHelpItem {
            option_name: "ideal_width",
            doc_string: "Ideal width of each line",
            variant_names: <usize as ConfigType>::doc_hint(),
            default: "80",
        }
    } else if i == 4 {
        ConfigHelpItem {
            option_name: "tab_spaces",
            doc_string: "Number of spaces per tab",
            variant_names: <usize as ConfigType>::doc_hint(),
            default: "4",
        }
    } else if i == 5 {
        ConfigHelpItem {
            option_name: "fn_call_width",
            doc_string: "Maximum width of the args of a function call before falling back to vertical formatting",
            variant_names: <usize as ConfigType>::doc_hint(),
            default: "60",
        }
    } else if i == 6 {
        ConfigHelpItem {
            option_name: "struct_lit_width",
            doc_string: "Maximum width in the body of a struct lit before falling back to vertical formatting",
            variant_names: <usize as ConfigType>::doc_hint(),
            default: "16",
        }
    } else if i == 7 {
        ConfigHelpItem {
            option_name: "force_explicit_abi",
            doc_string: "Always print the abi for extern items",
            variant_names: <bool as ConfigType>::doc_hint(),
            default: "true",
        }
    } else if i == 8 {
        ConfigHelpItem {
            option_name: "newline_style",
            doc_string: "Unix or Windows line endings",
            variant_names: <NewlineStyle as ConfigType>::doc_hint(),
            default: "Unix",
        }
    } else if i == 9 {
        ConfigHelpItem {
            option_name: "fn_brace_style",
            doc_string: "Brace style for functions",
            variant_names: <BraceStyle as ConfigType>::doc_hint(),
            default: "SameLineWhere",
        }
    } else if i == 10 {
        ConfigHelpItem {
            option_name: "item_brace_style",
            doc_string: "Brace style for structs and enums",
            variant_names: <BraceStyle as ConfigType>::doc_hint(),
            default: "SameLineWhere",
        }
    } else if i == 11 {
        ConfigHelpItem {
            option_name: "else_if_brace_style",
            doc_string: "Brace style for if, else if, and else constructs",
            variant_names: <ElseIfBraceStyle as ConfigType>::doc_hint(),
            default: "AlwaysSameLine",
        }
    } else if i == 12 {
        ConfigHelpItem {
            option_name: "control_brace_style",
            doc_string: "Brace style for match, loop, for, and while constructs",
            variant_names: <ControlBraceStyle as ConfigType>::doc_hint(),
            default: "AlwaysSameLine",
        }
    } else if i == 13 {
        ConfigHelpItem {
            option_name: "impl_empty_single_line",
            doc_string: "Put empty-body implementations on a single line",
            variant_names: <bool as ConfigType>::doc_hint(),
            default: "true",
        }
    } else if i == 14 {
        ConfigHelpItem {
            option_name: "fn_empty_single_line",
            doc_string: "Put empty-body functions on a single line",
            variant_names: <bool as ConfigType>::doc_hint(),
            default: "true",
        }
    } else if i == 15 {
        ConfigHelpItem {
            option_name: "fn_single_line",
            doc_string: "Put single-expression functions on a single line",
            variant_names: <bool as ConfigType>::doc_hint(),
            default: "false",
        }
    } else if i == 16 {
        ConfigHelpItem {
            option_name: "fn_return_indent",
            doc_string: "Location of return type in function declaration",
            variant_names: <ReturnIndent as ConfigType>::doc_hint(),
            default: "WithArgs",
        }
    } else if i == 17 {
        ConfigHelpItem {
            option_name: "fn_args_paren_newline",
            doc_string: "If function argument parenthesis goes on a newline",
            variant_names: <bool as ConfigType>::doc_hint(),
            default: "true",
        }
    } else if i == 18 {
        ConfigHelpItem {
            option_name: "fn_args_density",
            doc_string: "Argument density in functions",
            variant_names: <Density as ConfigType>::doc_hint(),
            default: "Tall",
        }
    } else if i == 19 {
        ConfigHelpItem {
            option_name: "fn_args_layout",
            doc_string: "Layout of function arguments",
            variant_names: <FnArgLayoutStyle as ConfigType>::doc_hint(),
            default: "Visual",
        }
    } else if i == 20 {
        ConfigHelpItem {
            option_name: "fn_arg_indent",
            doc_string: "Indent on function arguments",
            variant_names: <BlockIndentStyle as ConfigType>::doc_hint(),
            default: "Visual",
        }
    } else if i == 21 {
        ConfigHelpItem {
            option_name: "type_punctuation_density",
            doc_string: "Determines if '+' or '=' are wrapped in spaces in the punctuation of types",
            variant_names: <TypeDensity as ConfigType>::doc_hint(),
            default: "Wide",
        }
    } else if i == 22 {
        ConfigHelpItem {
            option_name: "where_density",
            doc_string: "Density of a where clause",
            variant_names: <Density as ConfigType>::doc_hint(),
            default: "CompressedIfEmpty",
        }
    } else if i == 23 {
        ConfigHelpItem {
            option_name: "where_indent",
            doc_string: "Indentation of a where clause",
            variant_names: <BlockIndentStyle as ConfigType>::doc_hint(),
            default: "Tabbed",
        }
    } else if i == 24 {
        ConfigHelpItem {
            option_name: "where_layout",
            doc_string: "Element layout inside a where clause",
            variant_names: <ListTactic as ConfigType>::doc_hint(),
            default: "Vertical",
        }
    } else if i == 25 {
        ConfigHelpItem {
            option_name: "where_pred_indent",
            doc_string: "Indentation style of a where predicate",
            variant_names: <BlockIndentStyle as ConfigType>::doc_hint(),
            default: "Visual",
        }
    } else if i == 26 {
        ConfigHelpItem {
            option_name: "where_trailing_comma",
            doc_string: "Put a trailing comma on where clauses",
            variant_names: <bool as ConfigType>::doc_hint(),
            default: "false",
        }
    } else if i == 27 {
        ConfigHelpItem {
            option_name: "generics_indent",
            doc_string: "Indentation of generics",
            variant_names: <BlockIndentStyle as ConfigType>::doc_hint(),
            default: "Visual",
        }
    } else if i == 28 {
        ConfigHelpItem {
            option_name: "struct_trailing_comma",
            doc_string: "If there is a trailing comma on structs",
            variant_names: <SeparatorTactic as ConfigType>::doc_hint(),
            default: "Vertical",
        }
    } else if i == 29 {
        ConfigHelpItem {
            option_name: "struct_lit_trailing_comma",
            doc_string: "If there is a trailing comma on literal structs",
            variant_names: <SeparatorTactic as ConfigType>::doc_hint(),
            default: "Vertical",
        }
    } else if i == 30 {
        ConfigHelpItem {
            option_name: "struct_lit_style",
            doc_string: "Style of struct definition",
            variant_names: <StructLitStyle as ConfigType>::doc_hint(),
            default: "Block",
        }
    } else if i == 31 {
        ConfigHelpItem {
            option_name: "struct_lit_multiline_style",
            doc_string: "Multiline style on literal structs",
            variant_names: <MultilineStyle as ConfigType>::doc_hint(),
            default: "PreferSingle",
        }
    } else if i == 32 {
        ConfigHelpItem {
            option_name: "enum_trailing_comma",
            doc_string: "Put a trailing comma on enum declarations",
            variant_names: <bool as ConfigType>::doc_hint(),
            default: "true",
        }
    } else if i == 33 {
        ConfigHelpItem {
            option_name: "report_todo",
            doc_string: "Report all, none or unnumbered occurrences of TODO in source file comments",
            variant_names: <ReportTactic as ConfigType>::doc_hint(),
            default: "Never",
        }
    } else if i == 34 {
        ConfigHelpItem {
            option_name: "report_fixme",
            doc_string: "Report all, none or unnumbered occurrences of FIXME in source file comments",
            variant_names: <ReportTactic as ConfigType>::doc_hint(),
            default: "Never",
        }
    } else if i == 35 {
        ConfigHelpItem {
            option_name: "chain_base_indent",
            doc_string: "Indent on chain base",
            variant_names: <BlockIndentStyle as ConfigType>::doc_hint(),
            default: "Visual",
        }
    } else if i == 36 {
        ConfigHelpItem {
            option_name: "chain_indent",
            doc_string: "Indentation of chain",
            variant_names: <BlockIndentStyle as ConfigType>::doc_hint(),
            default: "Visual",
        }
    } else if i == 37 {
        ConfigHelpItem {
            option_name: "reorder_imports",
            doc_string: "Reorder import statements alphabetically",
            variant_names: <bool as ConfigType>::doc_hint(),
            default: "false",
        }
    } else if i == 38 {
        ConfigHelpItem {
            option_name: "single_line_if_else",
            doc_string: "Put else on same line as closing brace for if statements",
            variant_names: <bool as ConfigType>::doc_hint(),
            default: "false",
        }
    } else if i == 39 {
        ConfigHelpItem {
            option_name: "format_strings",
            doc_string: "Format string literals where necessary",
            variant_names: <bool as ConfigType>::doc_hint(),
            default: "true",
        }
    } else if i == 40 {
        ConfigHelpItem {
            option_name: "force_format_strings",
            doc_string: "Always format string literals",
            variant_names: <bool as ConfigType>::doc_hint(),
            default: "false",
        }
    } else if i == 41 {
        ConfigHelpItem {
            option_name: "chains_overflow_last",
            doc_string: "Allow last call in method chain to break the line",
            variant_names: <bool as ConfigType>::doc_hint(),
            default: "true",
        }
    } else if i == 42 {
        ConfigHelpItem {
            option_name: "take_source_hints",
            doc_string: "Retain some formatting characteristics from the source code",
            variant_names: <bool as ConfigType>::doc_hint(),
            default: "true",
        }
    } else if i == 43 {
        ConfigHelpItem {
            option_name: "hard_tabs",
            doc_string: "Use tab characters for indentation, spaces for alignment",
            variant_names: <bool as ConfigType>::doc_hint(),
            default: "false",
        }
    } else if i == 44 {
        ConfigHelpItem {
            option_name: "wrap_comments",
            doc_string: "Break comments to fit on the line",
            variant_names: <bool as ConfigType>::doc_hint(),
            default: "false",
        }
    } else if i == 45 {
        ConfigHelpItem {
            option_name: "normalise_comments",
            doc_string: "Convert /* */ comments to // comments where possible",
            variant_names: <bool as ConfigType>::doc_hint(),
            default: "true",
        }
    } else if i == 46 {
        ConfigHelpItem {
            option_name: "wrap_match_arms",
            doc_string: "Wrap multiline match arms in blocks",
            variant_names: <bool as ConfigType>::doc_hint(),
            default: "true",
        }
    } else if i == 47 {
        ConfigHelpItem {
            option_name: "match_block_trailing_comma",
            doc_string: "Put a trailing comma after a block based match arm (non-block arms are not affected)",
            variant_names: <bool as ConfigType>::doc_hint(),
            default: "false",
        }
    } else if i == 48 {
        ConfigHelpItem {
            option_name: "match_wildcard_trailing_comma",
            doc_string: "Put a trailing comma after a wildcard arm",
            variant_names: <bool as ConfigType>::doc_hint(),
            default: "true",
        }
    } else if i == 49 {
        ConfigHelpItem {
            option_name: "write_mode",
            doc_string: "What Write Mode to use when none is supplied: Replace, Overwrite, Display, Diff, Coverage",
            variant_names: <WriteMode as ConfigType>::doc_hint(),
            default: "Replace",
        }
    } else {
        ConfigHelpItem {
            option_name: "",
            doc_string: "",
            variant_names: String::new(),
            default: "",
        }
    }
}

} // verus!
