//! The provider registry: resolves a model name to a concrete provider.
//! Registration is static; resolution is read-only, so concurrent lookups
//! from several workers are safe.

use crate::errors::ErrorKind;
use crate::provider::{Provider, RemoteModel};
use crate::text::str_eq;
use vstd::prelude::*;

verus! {

/// The model names the registry recognizes.
pub open spec fn known_model(n: Seq<char>) -> bool {
    n == "gpt"@ || n == "gpt-4"@ || n == "google-ai"@ || n == "vertex_ai_code-bison"@ || n
        == "vertex_ai_code-bison-32k"@ || n == "vertex_ai_gemini-pro"@
}

/// Resolves `model_name` to a provider. The external-binary backend takes
/// the configured binary path and a default token budget matching its
/// context window. The gpt-4 name is recognized but has no working
/// backend, so selecting it fails with `NotImplemented` rather than
/// silently degrading; any other unknown name fails with `UnknownModel`.
pub fn resolve(model_name: &str, ai_binary: Option<String>) -> (r: Result<Provider, ErrorKind>)
    ensures
        model_name@ == "gpt"@ ==> (r matches Ok(p) && p is Simulated),
        model_name@ == "gpt-4"@ ==> r == Err::<Provider, ErrorKind>(ErrorKind::NotImplemented),
        model_name@ == "google-ai"@ ==> (r matches Ok(p) && p matches Provider::ExternalBinary {
            name,
            max_tokens,
            ai_binary: b,
        } && name@ == "google-ai"@ && max_tokens == 1500 && b == ai_binary),
        model_name@ == "vertex_ai_code-bison"@ ==> (r matches Ok(p) && p == Provider::Remote(
            RemoteModel::CodeBison,
        )),
        model_name@ == "vertex_ai_code-bison-32k"@ ==> (r matches Ok(p) && p == Provider::Remote(
            RemoteModel::CodeBison32k,
        )),
        model_name@ == "vertex_ai_gemini-pro"@ ==> (r matches Ok(p) && p == Provider::Remote(
            RemoteModel::GeminiPro,
        )),
        !known_model(model_name@) ==> r == Err::<Provider, ErrorKind>(ErrorKind::UnknownModel),
{
    proof {
        reveal_strlit("gpt");
        reveal_strlit("gpt-4");
        reveal_strlit("google-ai");
        reveal_strlit("vertex_ai_code-bison");
        reveal_strlit("vertex_ai_code-bison-32k");
        reveal_strlit("vertex_ai_gemini-pro");
        assert("gpt"@.len() == 3);
        assert("gpt-4"@.len() == 5);
        assert("google-ai"@.len() == 9);
        assert("vertex_ai_code-bison"@.len() == 20);
        assert("vertex_ai_code-bison-32k"@.len() == 24);
        assert("vertex_ai_gemini-pro"@.len() == 20);
        assert("vertex_ai_code-bison"@[10] == 'c');
        assert("vertex_ai_gemini-pro"@[10] == 'g');
    }
    if str_eq(model_name, "gpt") {
        Ok(Provider::Simulated)
    } else if str_eq(model_name, "gpt-4") {
        Err(ErrorKind::NotImplemented)
    } else if str_eq(model_name, "google-ai") {
        Ok(Provider::ExternalBinary { name: "google-ai".to_owned(), max_tokens: 1500, ai_binary })
    } else if str_eq(model_name, "vertex_ai_code-bison") {
        Ok(Provider::Remote(RemoteModel::CodeBison))
    } else if str_eq(model_name, "vertex_ai_code-bison-32k") {
        Ok(Provider::Remote(RemoteModel::CodeBison32k))
    } else if str_eq(model_name, "vertex_ai_gemini-pro") {
        Ok(Provider::Remote(RemoteModel::GeminiPro))
    } else {
        Err(ErrorKind::UnknownModel)
    }
}

} // verus!
