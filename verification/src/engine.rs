//! The trusted boundary to the `llm` crate, used to validate a provider
//! profile by constructing a live client before it is persisted. The chat
//! round trip itself is asynchronous network I/O and stays outside the
//! library; registration only needs to know whether a client can be built.

use vstd::prelude::*;

verus! {

/// Whether the `llm` crate can construct a provider client from these
/// fields. With the compiled backend set that outcome depends on the four
/// arguments alone, so it can carry a name; `try_construct_client` is what
/// ties the name to the crate.
pub uninterp spec fn construct_ok(
    provider: Seq<char>,
    api_key: Seq<char>,
    model: Seq<char>,
    max_tokens: u32,
) -> bool;

/// Relies on `llm::builder::LLMBackend::from_str` and `LLMBuilder::build`:
/// `from_str` lowercases the name and matches it against a fixed list, and
/// `build` checks the staged fields and stores them — neither reads the
/// environment, so the combined outcome is a function of the arguments
/// alone, named `construct_ok`. `"google"` is in the list and its build
/// succeeds whenever a key is staged, as it always is here. `Err` carries
/// the crate's message. The sampling temperature takes no part in
/// construction — `build` merely stores it — so the check omits it.
#[verifier::external_body]
pub(crate) fn try_construct_client(
    provider: &str,
    api_key: &str,
    model: &str,
    max_tokens: u32,
) -> (r: Result<(), String>)
    ensures
        r is Ok <==> construct_ok(provider@, api_key@, model@, max_tokens),
        provider@ == "google"@ ==> r is Ok,
{
    let backend = match <llm::builder::LLMBackend as core::str::FromStr>::from_str(provider) {
        Ok(b) => b,
        Err(e) => return Err(e.to_string()),
    };
    let staged = llm::builder::LLMBuilder::new()
        .backend(backend)
        .api_key(api_key)
        .model(model)
        .max_tokens(max_tokens);
    match staged.build() {
        Ok(_) => Ok(()),
        Err(e) => Err(e.to_string()),
    }
}

} // verus!
