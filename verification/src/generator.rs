//! The code generator: given the parsed declaration of a type, it emits a
//! `HelloMacro` implementation for that type whose method announces the
//! type's name.
//!
//! Parsing source tokens into a syntax tree and lexing the generated text
//! back into tokens are delegated to the `syn` and `proc-macro2` crates; the
//! generation itself — from the type's identifier to the emitted fragment —
//! is this module's own logic.

use vstd::prelude::*;
use vstd::string::StringExecFns;

verus! {

/// Token streams cross the generator's boundary; their contents stay opaque.
#[verifier::external_type_specification]
#[verifier::external_body]
pub struct ExTokenStream(proc_macro2::TokenStream);

/// A lexing failure from turning source text back into tokens.
#[verifier::external_type_specification]
#[verifier::external_body]
pub struct ExLexError(proc_macro2::LexError);

/// The parsed declaration of a type, as `syn` returns it.
#[verifier::external_type_specification]
#[verifier::external_body]
pub struct ExDeriveInput(syn::DeriveInput);

/// A parse failure from `syn`.
#[verifier::external_type_specification]
#[verifier::external_body]
pub struct ExSynError(syn::Error);

/// Why a generation call produced no fragment.
#[derive(Clone, Copy, Debug, PartialEq, Eq, Structural)]
pub enum MacroError {
    /// The input token stream does not form a type declaration.
    MalformedInput,
    /// The input parses, but generating against its shape would emit code
    /// that does not compile (the type has generic parameters), so the
    /// generator fails fast instead.
    UnsupportedShape,
}

/// What the generator reads from a parsed type declaration: its identifier.
pub struct SyntaxTree {
    pub ident: String,
}

/// Whether `syn::parse2` accepts the stream as a type declaration. Parsing
/// is deterministic, so this is a function of the stream alone.
pub uninterp spec fn parses(input: proc_macro2::TokenStream) -> bool;

/// The syntax tree that `syn::parse2` returns for a stream it accepts.
pub uninterp spec fn tree_of(input: proc_macro2::TokenStream) -> syn::DeriveInput;

/// The source text of the parsed type's identifier, as its Display impl
/// renders it.
pub uninterp spec fn ident_of(ast: syn::DeriveInput) -> Seq<char>;

/// Whether the parsed type's generic parameter list is empty.
pub uninterp spec fn generics_empty_of(ast: syn::DeriveInput) -> bool;

/// Whether the proc-macro2 lexer accepts the text as Rust source. Only
/// success is named: the tokens themselves carry spans that may differ
/// between calls.
pub uninterp spec fn lexes(src: Seq<char>) -> bool;

/// The message the generated method announces:
/// `Hello, Macro! My name is <name>!`.
pub open spec fn hello_message_view(name: Seq<char>) -> Seq<char> {
    "Hello, Macro! My name is "@ + name + "!"@
}

/// The generated fragment: an implementation of `HelloMacro` for the named
/// type, whose method prints the message for that name.
pub open spec fn impl_fragment_view(name: Seq<char>) -> Seq<char> {
    "impl HelloMacro for "@ + name + " { fn hello_macro() { println!(\""@ + hello_message_view(
        name,
    ) + "\"); } }"@
}

/// Builds the message the generated method announces for `name`.
pub fn hello_message(name: &str) -> (r: String)
    ensures
        r@ == hello_message_view(name@),
{
    let mut out = String::from_str("Hello, Macro! My name is ");
    out.append(name);
    out.append("!");
    out
}

/// Builds the source text of the `HelloMacro` implementation for the type
/// the syntax tree names. The emitted fragment embeds the tree's identifier
/// and nothing of any other invocation.
pub fn impl_hello_macro(ast: &SyntaxTree) -> (r: String)
    requires
        ast.ident@.len() > 0,
    ensures
        r@ == impl_fragment_view(ast.ident@),
{
    let message = hello_message(ast.ident.as_str());
    let mut out = String::from_str("impl HelloMacro for ");
    out.append(ast.ident.as_str());
    out.append(" { fn hello_macro() { println!(\"");
    out.append(message.as_str());
    out.append("\"); } }");
    out
}

/// Relies on syn::parse2: parses a token stream as the declaration of a
/// struct, enum or union, and fails on any stream that is not one. Parsing
/// reads the stream alone, so success and the returned tree are functions
/// of it.
#[verifier::external_body]
fn parse_derive_input(input: proc_macro2::TokenStream) -> (r: Result<
    syn::DeriveInput,
    syn::Error,
>)
    ensures
        r is Ok <==> parses(input),
        r matches Ok(ast) ==> ast == tree_of(input),
{
    syn::parse2::<syn::DeriveInput>(input)
}

/// Relies on ToString over the Display impl of proc_macro2::Ident: renders
/// the parsed type's identifier as its source text, which is never empty.
#[verifier::external_body]
fn derive_ident(ast: &syn::DeriveInput) -> (r: String)
    ensures
        r@ == ident_of(*ast),
        r@.len() > 0,
{
    ast.ident.to_string()
}

/// Relies on syn's Punctuated::is_empty: reports whether the parsed type's
/// generic parameter list is empty.
#[verifier::external_body]
fn generic_params_empty(ast: &syn::DeriveInput) -> (r: bool)
    ensures
        r == generics_empty_of(*ast),
{
    ast.generics.params.is_empty()
}

/// Relies on the FromStr impl of proc_macro2::TokenStream: lexes source
/// text into a token stream, failing only on text that is not lexable Rust.
/// Whether the text lexes depends on the text alone.
#[verifier::external_body]
fn tokenize_fragment(src: &str) -> (r: Result<proc_macro2::TokenStream, proc_macro2::LexError>)
    ensures
        r is Ok <==> lexes(src@),
{
    src.parse::<proc_macro2::TokenStream>()
}

/// Generates the `HelloMacro` implementation for the type the input tokens
/// declare. Fails with `MalformedInput` exactly when the tokens do not
/// parse as a type declaration (or the emitted fragment does not lex), with
/// `UnsupportedShape` exactly when the declared type has generic
/// parameters, and succeeds otherwise; it never emits a fragment and an
/// error together.
pub fn hello_macro_derive(input: proc_macro2::TokenStream) -> (r: Result<
    proc_macro2::TokenStream,
    MacroError,
>)
    ensures
        !parses(input) ==> (r matches Err(e) && e == MacroError::MalformedInput),
        parses(input) && !generics_empty_of(tree_of(input)) ==> (r matches Err(e) && e
            == MacroError::UnsupportedShape),
        parses(input) && generics_empty_of(tree_of(input)) && lexes(
            impl_fragment_view(ident_of(tree_of(input))),
        ) ==> r is Ok,
        parses(input) && generics_empty_of(tree_of(input)) && !lexes(
            impl_fragment_view(ident_of(tree_of(input))),
        ) ==> (r matches Err(e) && e == MacroError::MalformedInput),
{
    let ast = match parse_derive_input(input) {
        Ok(ast) => ast,
        Err(_) => {
            return Err(MacroError::MalformedInput);
        },
    };
    if !generic_params_empty(&ast) {
        return Err(MacroError::UnsupportedShape);
    }
    let ident = derive_ident(&ast);
    let tree = SyntaxTree { ident };
    let fragment = impl_hello_macro(&tree);
    match tokenize_fragment(fragment.as_str()) {
        Ok(tokens) => Ok(tokens),
        Err(_) => Err(MacroError::MalformedInput),
    }
}

/// Generation is deterministic: the emitted fragment is a function of the
/// identifier alone, so equal identifiers give byte-identical fragments.
pub proof fn lemma_generation_deterministic(a: Seq<char>, b: Seq<char>)
    requires
        a == b,
    ensures
        impl_fragment_view(a) == impl_fragment_view(b),
{
}

/// The announced message embeds, verbatim, the identifier it was generated
/// from, directly after the fixed message prefix.
pub proof fn lemma_message_contains_ident(name: Seq<char>)
    ensures
        ({
            let msg = hello_message_view(name);
            let at = "Hello, Macro! My name is "@.len() as int;
            &&& 0 <= at
            &&& at + name.len() <= msg.len()
            &&& msg.subrange(at, at + name.len()) == name
        }),
{
    let msg = hello_message_view(name);
    let at = "Hello, Macro! My name is "@.len() as int;
    assert(msg.subrange(at, at + name.len()) =~= name);
}

/// Every generated fragment embeds, verbatim, the whole announced message
/// for its identifier.
pub proof fn lemma_fragment_contains_message(name: Seq<char>)
    ensures
        ({
            let frag = impl_fragment_view(name);
            let msg = hello_message_view(name);
            let at = ("impl HelloMacro for "@.len() + name.len()
                + " { fn hello_macro() { println!(\""@.len()) as int;
            &&& 0 <= at
            &&& at + msg.len() <= frag.len()
            &&& frag.subrange(at, at + msg.len()) == msg
        }),
{
    let frag = impl_fragment_view(name);
    let msg = hello_message_view(name);
    let at = ("impl HelloMacro for "@.len() + name.len()
        + " { fn hello_macro() { println!(\""@.len()) as int;
    assert(frag.subrange(at, at + msg.len()) =~= msg);
}

/// Every generated fragment embeds, verbatim, the identifier it was
/// generated from, directly after the fixed implementation header.
pub proof fn lemma_fragment_contains_ident(name: Seq<char>)
    ensures
        ({
            let frag = impl_fragment_view(name);
            let at = "impl HelloMacro for "@.len() as int;
            &&& 0 <= at
            &&& at + name.len() <= frag.len()
            &&& frag.subrange(at, at + name.len()) == name
        }),
{
    let frag = impl_fragment_view(name);
    let at = "impl HelloMacro for "@.len() as int;
    assert(frag.subrange(at, at + name.len()) =~= name);
}

} // verus!
