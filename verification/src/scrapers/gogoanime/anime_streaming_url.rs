//! The direct stream address that the helper script prints for an episode.
use vstd::prelude::*;
use crate::text::{byte_len_exceeds, replace_str, replaced, utf8_len};
use crate::utils::types::ScraperError;

verus! {

broadcast use vstd::string::group_string_axioms;

/// The output of the helper script cleaned to an address: the exit notes
/// dropped (a failure note turned into `error`) and the line breaks removed;
/// anything longer than 200 bytes is error chatter.
pub open spec fn cleaned_output(out: Seq<char>) -> Seq<char> {
    let u = replaced(
        replaced(replaced(out, "exit code: 0"@, ""@), "exit code: 1"@, "error"@),
        "\n"@,
        ""@,
    );
    if utf8_len(u) > 200 {
        "error"@
    } else {
        u
    }
}

/// The stream address in the output of the helper script.
pub fn get(output: &str) -> (r: Result<String, ScraperError>)
    ensures
        cleaned_output(output@) == "error"@ ==> (r matches Err(e) && e.reason@ == "Id is invalid"@),
        cleaned_output(output@) != "error"@ ==> (r matches Ok(u) && u@ == cleaned_output(output@)),
{
    proof {
        reveal_strlit("exit code: 0");
        reveal_strlit("exit code: 1");
        reveal_strlit("\n");
    }
    let a = replace_str(output, "exit code: 0", "");
    let b = replace_str(a.as_str(), "exit code: 1", "error");
    let mut url = replace_str(b.as_str(), "\n", "");
    if byte_len_exceeds(url.as_str(), 200) {
        url = "error".to_string();
    }
    let err = "error".to_string();
    if url == err {
        return Err(ScraperError { reason: "Id is invalid".to_string() });
    }
    Ok(url)
}

} // verus!
