//! The configuration decoder: turns an opaque byte buffer handed in by the
//! caller into a structured, validated parse configuration, or a decode error
//! with a readable cause.
//!
//! Decoding is deterministic, so every part of the result — whether the bytes
//! decode, each decoded field, and the cause on failure — is a named function
//! of the bytes alone, and the decoder's contract pins the result to those
//! names.

use vstd::prelude::*;

use swc::config::IsModule;
use swc_ecma_parser::Syntax;

verus! {

/// Whether the source is parsed as a module, as a script, as CommonJS, or
/// detected from the text itself.
#[derive(Clone, Copy, Debug, PartialEq, Eq, Structural)]
pub enum ModuleMode {
    /// An explicit choice: `Explicit(true)` is module, `Explicit(false)` is
    /// script.
    Explicit(bool),
    /// CommonJS semantics.
    CommonJs,
    /// Let the parser decide from the shape of the source.
    Detect,
}

/// The syntax dialect named by the configuration.
#[derive(Clone, Copy, Debug, PartialEq, Eq, Structural)]
pub enum Dialect {
    Ecmascript,
    Typescript,
    /// A dialect of the grammar engine that this library does not model
    /// further.
    Other,
}

/// A decoded parse configuration. Immutable for the lifetime of one task.
///
/// The plain fields mirror what the attempt's own logic reads; the engine's
/// full decoded form travels alongside in `raw` and is handed back to the
/// grammar engine unchanged when the attempt runs. The ghost `origin` records
/// the bytes the value was decoded from, so downstream contracts can speak of
/// the attempt as a function of source text and configuration bytes.
pub struct ParseConfig {
    /// Whether comment capture is attached to the parse attempt.
    pub comments: bool,
    /// Module-versus-script mode.
    pub module: ModuleMode,
    /// The syntax dialect.
    pub dialect: Dialect,
    /// The target language edition, as the tag the configuration named.
    pub edition: String,
    pub(crate) raw: swc::config::ParseOptions,
    origin: Ghost<Seq<u8>>,
}

impl ParseConfig {
    /// The comment-capture flag.
    pub closed spec fn spec_comments(self) -> bool {
        self.comments
    }

    /// The module-versus-script mode.
    pub closed spec fn spec_module(self) -> ModuleMode {
        self.module
    }

    /// The syntax dialect.
    pub closed spec fn spec_dialect(self) -> Dialect {
        self.dialect
    }

    /// The edition tag.
    pub closed spec fn spec_edition(self) -> Seq<char> {
        self.edition@
    }

    /// The configuration bytes this value was decoded from.
    pub closed spec fn spec_origin(self) -> Seq<u8> {
        self.origin@
    }
}

#[verifier::external_type_specification]
#[verifier::external_body]
pub struct ExParseOptions(swc::config::ParseOptions);

#[verifier::external_type_specification]
#[verifier::external_body]
pub struct ExSerdeJsonError(serde_json::Error);

/// Whether this byte buffer decodes as a parse configuration. The decoder is
/// deterministic, so this — like every name below — depends on the bytes
/// alone.
pub uninterp spec fn config_decodes(bytes: Seq<u8>) -> bool;

/// The comment-capture flag the bytes decode to.
pub uninterp spec fn config_comments(bytes: Seq<u8>) -> bool;

/// The module-versus-script mode the bytes decode to.
pub uninterp spec fn config_module(bytes: Seq<u8>) -> ModuleMode;

/// The syntax dialect the bytes decode to.
pub uninterp spec fn config_dialect(bytes: Seq<u8>) -> Dialect;

/// The edition tag the bytes decode to.
pub uninterp spec fn config_edition(bytes: Seq<u8>) -> Seq<char>;

/// The decode failure's readable cause, for bytes that do not decode.
pub uninterp spec fn decode_cause(bytes: Seq<u8>) -> Seq<char>;

/// Relies on `serde_json::from_slice` deserializing swc's `ParseOptions`, on
/// the decoded value's fields (`comments`; `is_module`, one arm per variant;
/// `syntax`, one arm per variant; `target` with its derived `Debug` tag), and
/// on `serde_json::Error`'s `Display` impl for the cause. Deserialization is
/// a deterministic function of the input bytes, so every part of the result
/// depends on the bytes alone.
#[verifier::external_body]
fn decode_fields(bytes: &Vec<u8>) -> (r: Result<
    (bool, ModuleMode, Dialect, String, swc::config::ParseOptions),
    String,
>)
    ensures
        r is Ok <==> config_decodes(bytes@),
        (r matches Ok(t) ==> t.0 == config_comments(bytes@) && t.1 == config_module(bytes@)
            && t.2 == config_dialect(bytes@) && t.3@ == config_edition(bytes@)),
        (r matches Err(m) ==> m@ == decode_cause(bytes@)),
{
    let o = match serde_json::from_slice::<swc::config::ParseOptions>(bytes) {
        Ok(o) => o,
        Err(e) => return Err(format!("{}", e)),
    };
    let module = match o.is_module {
        IsModule::Bool(b) => ModuleMode::Explicit(b),
        IsModule::CommonJS => ModuleMode::CommonJs,
        IsModule::Unknown => ModuleMode::Detect,
    };
    #[allow(unreachable_patterns)]
    let dialect = match o.syntax { Syntax::Es(_) => Dialect::Ecmascript, Syntax::Typescript(_) => Dialect::Typescript, _ => Dialect::Other };
    let edition = format!("{:?}", o.target);
    Ok((o.comments, module, dialect, edition, o))
}

/// Decode a raw configuration buffer.
///
/// Succeeds exactly on the buffers that decode as a parse configuration, and
/// every decoded field is the named function of the bytes; malformed or
/// schema-mismatched bytes yield the decode failure's named cause instead,
/// never a crash.
pub fn decode(bytes: &Vec<u8>) -> (r: Result<ParseConfig, String>)
    ensures
        r is Ok <==> config_decodes(bytes@),
        (r matches Ok(c) ==> c.spec_comments() == config_comments(bytes@) && c.spec_module()
            == config_module(bytes@) && c.spec_dialect() == config_dialect(bytes@)
            && c.spec_edition() == config_edition(bytes@) && c.spec_origin() == bytes@),
        (r matches Err(m) ==> m@ == decode_cause(bytes@)),
{
    match decode_fields(bytes) {
        Ok((comments, module, dialect, edition, raw)) => Ok(
            ParseConfig { comments, module, dialect, edition, raw, origin: Ghost(bytes@) },
        ),
        Err(cause) => Err(cause),
    }
}

} // verus!
