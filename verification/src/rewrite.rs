//! The definition rewriter: turns the source text of a function definition
//! into a replacement definition of the same name, generic parameters and
//! parameter list whose body returns the original definition's canonical
//! reprint as a string literal.

use vstd::prelude::*;
use vstd::string::StringExecFns;
use crate::parse::FnDef;
use crate::parse::FnModel;
use crate::parse::FnParse;
use crate::parse::ParseError;
use crate::parse::literal_of;
use crate::parse::make_literal;
use crate::parse::parse_function;
use crate::parse::parse_of;

verus! {

/// The signature of the emitted replacement: the input definition's own name,
/// generic parameter list and parameter list, spliced into a fixed template
/// that pins the return type to an immutable string view.
pub open spec fn signature_text(name: Seq<char>, generics: Seq<char>, params: Seq<char>) -> Seq<char> {
    "pub fn "@ + name + generics + "("@ + params + ") -> &'static str"@
}

/// The body of the emitted replacement: a block holding exactly one string
/// literal, whose value is the canonical reprint of the input definition.
pub open spec fn body_text(reprint: Seq<char>) -> Seq<char> {
    " { "@ + literal_of(reprint) + " }"@
}

/// The full text of the replacement emitted for a parsed definition.
pub open spec fn replacement_text(def: FnModel) -> Seq<char> {
    signature_text(def.name, def.generics, def.params) + body_text(def.reprint)
}

/// What rewriting a source text yields: the replacement definition's text when
/// the text parses as a function definition, and the parser's diagnostic
/// message when it does not.
pub open spec fn rewrite_spec(src: Seq<char>) -> Result<Seq<char>, Seq<char>> {
    match parse_of(src) {
        FnParse::Accepted { def } => Ok(replacement_text(def)),
        FnParse::Rejected { message } => Err(message),
    }
}

fn build_replacement(def: &FnDef, lit: &str) -> (r: String)
    ensures
        r@ == signature_text(def.name@, def.generics@, def.params@) + (" { "@ + lit@ + " }"@),
{
    let mut out: String = "pub fn ".to_owned();
    out.append(def.name.as_str());
    out.append(def.generics.as_str());
    out.append("(");
    out.append(def.params.as_str());
    out.append(") -> &'static str");
    out.append(" { ");
    out.append(lit);
    out.append(" }");
    out
}

/// Rewrites the source text of one function definition into the text of its
/// replacement: same name, same generic parameter list, same parameter list,
/// the return type fixed to `&'static str`, and a body of exactly one string
/// literal holding the canonical reprint of the whole input definition. A
/// text that does not parse as a function definition is rejected with the
/// parser's diagnostic, and no replacement is emitted for it.
pub fn rewrite_function(src: &str) -> (r: Result<String, ParseError>)
    ensures
        (r is Ok) == (parse_of(src@) is Accepted),
        r matches Ok(out) ==> Ok::<Seq<char>, Seq<char>>(out@) == rewrite_spec(src@),
        r matches Err(e) ==> Err::<Seq<char>, Seq<char>>(e.message@) == rewrite_spec(src@),
{
    let def = match parse_function(src) {
        Ok(def) => def,
        Err(e) => {
            return Err(e);
        },
    };
    let lit = make_literal(def.reprint.as_str());
    let out = build_replacement(&def, lit.as_str());
    Ok(out)
}

/// The annotation's entry point. `attr` holds whatever tokens stood in the
/// annotation itself; they play no part in the result, so the contract speaks
/// of `item`, the annotated item's text, alone.
pub fn function_ai(_attr: &str, item: &str) -> (r: Result<String, ParseError>)
    ensures
        (r is Ok) == (parse_of(item@) is Accepted),
        r matches Ok(out) ==> Ok::<Seq<char>, Seq<char>>(out@) == rewrite_spec(item@),
        r matches Err(e) ==> Err::<Seq<char>, Seq<char>>(e.message@) == rewrite_spec(item@),
{
    rewrite_function(item)
}

/// Law: the replacement's text is exactly the fixed template around the parsed
/// definition's own name, generic parameter list and parameter list — the
/// signature parts are embedded verbatim, and the body holds one literal built
/// from the canonical reprint, not from the raw input bytes.
pub proof fn lemma_signature_preservation(def: FnModel)
    ensures
        replacement_text(def) == "pub fn "@ + def.name + def.generics + "("@ + def.params
            + ") -> &'static str"@ + " { "@ + literal_of(def.reprint) + " }"@,
{
}

/// Law: two definitions that agree on name, generic parameters and parameter
/// list get replacements with one and the same signature, whatever their
/// bodies; the replacements differ only in the body part.
pub proof fn lemma_body_irrelevance(def1: FnModel, def2: FnModel)
    requires
        def1.name == def2.name,
        def1.generics == def2.generics,
        def1.params == def2.params,
    ensures
        replacement_text(def1) == signature_text(def1.name, def1.generics, def1.params)
            + body_text(def1.reprint),
        replacement_text(def2) == signature_text(def1.name, def1.generics, def1.params)
            + body_text(def2.reprint),
{
}

/// Law: rewriting is deterministic — any two results that meet the rewriter's
/// contract for one and the same source text are equal, so separate runs over
/// identical input emit byte-identical text.
pub proof fn lemma_determinism(
    src: Seq<char>,
    r1: Result<Seq<char>, Seq<char>>,
    r2: Result<Seq<char>, Seq<char>>,
)
    requires
        r1 == rewrite_spec(src),
        r2 == rewrite_spec(src),
    ensures
        r1 == r2,
{
}

/// Law: the output follows the parse, not the raw source bytes — two source
/// texts that the parser reads the same way (for instance, texts differing
/// only in formatting) are rewritten to identical results.
pub proof fn lemma_reprint_not_raw_source(src1: Seq<char>, src2: Seq<char>)
    requires
        parse_of(src1) == parse_of(src2),
    ensures
        rewrite_spec(src1) == rewrite_spec(src2),
{
}

/// Law: a text that the parser rejects yields no replacement at all — the
/// outcome is the parser's diagnostic message, and nothing else.
pub proof fn lemma_rejected_text_yields_error(src: Seq<char>)
    requires
        parse_of(src) is Rejected,
    ensures
        rewrite_spec(src) == Err::<Seq<char>, Seq<char>>(parse_of(src)->message),
{
}

/// Law: tokens supplied to the annotation itself are ignored — results that
/// meet `function_ai`'s contract for one and the same item text are equal,
/// whatever arguments (here `attr1` and `attr2`) the annotation carried.
pub proof fn lemma_annotation_argument_ignored(
    attr1: Seq<char>,
    attr2: Seq<char>,
    item: Seq<char>,
    r1: Result<Seq<char>, Seq<char>>,
    r2: Result<Seq<char>, Seq<char>>,
)
    requires
        r1 == rewrite_spec(item),
        r2 == rewrite_spec(item),
    ensures
        r1 == r2,
{
}

} // verus!
