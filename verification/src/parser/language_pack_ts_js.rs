use vstd::prelude::*;

use crate::parser::ParserError;
use crate::protocol::symbols::LanguageId;
use crate::text::{concat2, has_prefix, opt_view};

verus! {

/// A family of languages that the parser recognises by path.
pub trait LanguagePack {
    type Language;

    fn pack_id(&self) -> &'static str;

    fn detect_path(&self, path: &str) -> Option<Self::Language>;

    fn supports_path(&self, path: &str) -> bool {
        self.detect_path(path).is_some()
    }
}

/// The TypeScript and JavaScript dialects.
#[derive(Debug, Clone, Copy, PartialEq, Eq, Structural)]
pub enum TsJsLanguage {
    TypeScript,
    TypeScriptReact,
    JavaScript,
    JavaScriptReact,
    TypeScriptModule,
    TypeScriptCommonJs,
}

/// The short name of a dialect.
pub open spec fn language_name(l: TsJsLanguage) -> Seq<char> {
    match l {
        TsJsLanguage::TypeScript => "typescript"@,
        TsJsLanguage::TypeScriptReact => "tsx"@,
        TsJsLanguage::JavaScript => "javascript"@,
        TsJsLanguage::JavaScriptReact => "jsx"@,
        TsJsLanguage::TypeScriptModule => "mts"@,
        TsJsLanguage::TypeScriptCommonJs => "cts"@,
    }
}

/// The protocol's language id for a dialect.
pub open spec fn protocol_language(l: TsJsLanguage) -> LanguageId {
    match l {
        TsJsLanguage::TypeScript => LanguageId::Typescript,
        TsJsLanguage::TypeScriptReact => LanguageId::Tsx,
        TsJsLanguage::JavaScript => LanguageId::Javascript,
        TsJsLanguage::JavaScriptReact => LanguageId::Jsx,
        TsJsLanguage::TypeScriptModule => LanguageId::Mts,
        TsJsLanguage::TypeScriptCommonJs => LanguageId::Cts,
    }
}

impl TsJsLanguage {
    /// The short name of this dialect.
    pub fn as_str(self) -> (s: &'static str)
        ensures
            s@ == language_name(self),
    {
        match self {
            TsJsLanguage::TypeScript => "typescript",
            TsJsLanguage::TypeScriptReact => "tsx",
            TsJsLanguage::JavaScript => "javascript",
            TsJsLanguage::JavaScriptReact => "jsx",
            TsJsLanguage::TypeScriptModule => "mts",
            TsJsLanguage::TypeScriptCommonJs => "cts",
        }
    }

    /// The protocol's language id for this dialect.
    pub fn to_protocol_language(self) -> (l: LanguageId)
        ensures
            l == protocol_language(self),
    {
        match self {
            TsJsLanguage::TypeScript => LanguageId::Typescript,
            TsJsLanguage::TypeScriptReact => LanguageId::Tsx,
            TsJsLanguage::JavaScript => LanguageId::Javascript,
            TsJsLanguage::JavaScriptReact => LanguageId::Jsx,
            TsJsLanguage::TypeScriptModule => LanguageId::Mts,
            TsJsLanguage::TypeScriptCommonJs => LanguageId::Cts,
        }
    }
}

/// The extension of a path as `std::path::Path::extension` reads it.
pub uninterp spec fn path_extension(path: Seq<char>) -> Option<Seq<char>>;

/// The extension of `path` (`Path::extension`, as UTF-8).
#[verifier::external_body]
fn extension_of(path: &str) -> (r: Option<String>)
    ensures
        opt_view(r) == path_extension(path@),
{
    match std::path::Path::new(path).extension() {
        Some(ext) => match ext.to_str() {
            Some(s) => Some(s.to_owned()),
            None => None,
        },
        None => None,
    }
}

/// The dialect an extension names.
pub open spec fn language_for_extension(ext: Option<Seq<char>>) -> Option<TsJsLanguage> {
    match ext {
        Some(e) => if e == "ts"@ {
            Some(TsJsLanguage::TypeScript)
        } else if e == "tsx"@ {
            Some(TsJsLanguage::TypeScriptReact)
        } else if e == "js"@ {
            Some(TsJsLanguage::JavaScript)
        } else if e == "jsx"@ {
            Some(TsJsLanguage::JavaScriptReact)
        } else if e == "mts"@ {
            Some(TsJsLanguage::TypeScriptModule)
        } else if e == "cts"@ {
            Some(TsJsLanguage::TypeScriptCommonJs)
        } else {
            None
        },
        None => None,
    }
}

/// The dialect an extension names.
pub fn language_from_extension(ext: Option<String>) -> (r: Option<TsJsLanguage>)
    ensures
        r == language_for_extension(opt_view(ext)),
{
    match ext {
        None => None,
        Some(e) => {
            if e == "ts".to_owned() {
                Some(TsJsLanguage::TypeScript)
            } else if e == "tsx".to_owned() {
                Some(TsJsLanguage::TypeScriptReact)
            } else if e == "js".to_owned() {
                Some(TsJsLanguage::JavaScript)
            } else if e == "jsx".to_owned() {
                Some(TsJsLanguage::JavaScriptReact)
            } else if e == "mts".to_owned() {
                Some(TsJsLanguage::TypeScriptModule)
            } else if e == "cts".to_owned() {
                Some(TsJsLanguage::TypeScriptCommonJs)
            } else {
                None
            }
        },
    }
}

/// The TypeScript/JavaScript language pack.
#[derive(Debug, Default, Clone, Copy)]
pub struct TsJsLanguagePack;

/// The id of the TypeScript/JavaScript pack.
pub const TS_JS_PACK_ID: &'static str = "ts_js_core";

impl LanguagePack for TsJsLanguagePack {
    type Language = TsJsLanguage;

    fn pack_id(&self) -> (s: &'static str)
        ensures
            s@ == TS_JS_PACK_ID@,
    {
        TS_JS_PACK_ID
    }

    fn detect_path(&self, path: &str) -> (r: Option<TsJsLanguage>)
        ensures
            r == language_for_extension(path_extension(path@)),
    {
        language_from_extension(extension_of(path))
    }
}

/// A tree-sitter grammar.
#[verifier::external_type_specification]
#[verifier::external_body]
pub struct ExGrammar(tree_sitter::Language);

/// A tree-sitter parser.
#[verifier::external_type_specification]
#[verifier::external_body]
pub struct ExSyntaxParser(tree_sitter::Parser);

/// Why tree-sitter refused a grammar.
#[verifier::external_type_specification]
#[verifier::external_body]
pub struct ExGrammarError(tree_sitter::LanguageError);

/// `tree_sitter_typescript::LANGUAGE_TYPESCRIPT` as a grammar. Nothing is stated of it:
/// grammars are opaque here.
#[verifier::external_body]
fn typescript_grammar() -> tree_sitter::Language {
    tree_sitter_typescript::LANGUAGE_TYPESCRIPT.into()
}

/// `tree_sitter_typescript::LANGUAGE_TSX` as a grammar. Nothing is stated of it.
#[verifier::external_body]
fn tsx_grammar() -> tree_sitter::Language {
    tree_sitter_typescript::LANGUAGE_TSX.into()
}

/// `tree_sitter::Parser::new`: a parser with no grammar. Nothing is stated of it.
#[verifier::external_body]
fn blank_parser() -> tree_sitter::Parser {
    tree_sitter::Parser::new()
}

/// `tree_sitter::Parser::set_language`: gives the parser a grammar, or refuses one whose
/// version this tree-sitter cannot use. Which of the two happens is not stated: it rests
/// on the grammar's build.
#[verifier::external_body]
fn assign_grammar(parser: &mut tree_sitter::Parser, grammar: &tree_sitter::Language) -> Result<(), tree_sitter::LanguageError> {
    parser.set_language(grammar)
}

/// The text of a refusal (`Display` of `tree_sitter::LanguageError`). Its text is not
/// stated.
#[verifier::external_body]
fn grammar_error_text(error: &tree_sitter::LanguageError) -> String {
    format!("{error}")
}

impl TsJsLanguagePack {
    /// The grammar of a dialect: TypeScript's for `.ts`, `.js`, `.mts` and `.cts`, which
    /// TypeScript's grammar covers, and TSX's for `.tsx` and `.jsx`.
    pub fn parser_language(&self, language: TsJsLanguage) -> (r: Result<tree_sitter::Language, ParserError>)
        ensures
            r is Ok,
    {
        match language {
            TsJsLanguage::TypeScript | TsJsLanguage::JavaScript | TsJsLanguage::TypeScriptModule
            | TsJsLanguage::TypeScriptCommonJs => Ok(typescript_grammar()),
            TsJsLanguage::TypeScriptReact | TsJsLanguage::JavaScriptReact => Ok(tsx_grammar()),
        }
    }

    /// A parser with the grammar of `language`; a grammar that tree-sitter refuses is
    /// reported as `failed to load parser grammar: ` and the refusal.
    pub fn new_parser(&self, language: TsJsLanguage) -> (r: Result<tree_sitter::Parser, ParserError>)
        ensures
            r matches Err(ParserError::Message(m)) ==> has_prefix(m@, "failed to load parser grammar: "@),
    {
        let mut parser = blank_parser();
        let grammar = self.parser_language(language)?;
        match assign_grammar(&mut parser, &grammar) {
            Ok(()) => Ok(parser),
            Err(error) => {
                let message = concat2("failed to load parser grammar: ", grammar_error_text(&error).as_str());
                proof {
                    assert(message@.take("failed to load parser grammar: "@.len() as int) =~= "failed to load parser grammar: "@);
                }
                Err(ParserError::Message(message))
            },
        }
    }
}

} // verus!
