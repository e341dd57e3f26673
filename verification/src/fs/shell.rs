//! Phoenix Shell: the native command-line interface.
use vstd::prelude::*;
use vstd::string::StringSliceAdditionalSpecFns;
use vstd::utf8::{encode_utf8, valid_utf8};
use crate::safe_alloc::{clip_str, concat2, first_word, first_word_spec, short_ascii, str_eq, string_bytes};

verus! {

/// The reply to a known command word, or `None` for an unknown one.
pub open spec fn known_reply(word: Seq<char>) -> Option<Seq<char>> {
    if word == "help"@ {
        Some("Available: help, clear, info, ls, whoami, exit"@)
    } else if word == "clear"@ {
        Some(""@)
    } else if word == "info"@ {
        Some("Phoenix OS v0.1.0 - Cognitive Core Active"@)
    } else if word == "whoami"@ {
        Some("root@phoenix"@)
    } else if word == "ls"@ {
        Some("Documents/ System/ PhoenixFS/"@)
    } else if word == "exit"@ {
        Some("Shutting down shell..."@)
    } else {
        None
    }
}

/// The bytes of the reply to an unknown command word.
pub open spec fn unknown_reply(word: Seq<char>) -> Seq<u8> {
    clip_str("Unknown command: ".spec_bytes() + encode_utf8(word))
}

/// Command handler: answers the first word of `cmd`. An empty line gets an
/// empty reply, a known command its fixed reply, anything else
/// "Unknown command: " followed by the word.
pub fn handle_command(cmd: &str) -> (out: String)
    ensures
        first_word_spec(cmd@).len() == 0 ==> out@ == ""@,
        first_word_spec(cmd@).len() > 0 ==> (known_reply(first_word_spec(cmd@)) matches Some(reply)
            ==> out@ == reply),
        first_word_spec(cmd@).len() > 0 && known_reply(first_word_spec(cmd@)) is None ==> string_bytes(
            out,
        ) == unknown_reply(first_word_spec(cmd@)),
{
    let word = first_word(cmd);
    proof {
        reveal_strlit("");
        reveal_strlit("help");
        reveal_strlit("clear");
        reveal_strlit("info");
        reveal_strlit("whoami");
        reveal_strlit("ls");
        reveal_strlit("exit");
        reveal_strlit("Available: help, clear, info, ls, whoami, exit");
        reveal_strlit("Phoenix OS v0.1.0 - Cognitive Core Active");
        reveal_strlit("root@phoenix");
        reveal_strlit("Documents/ System/ PhoenixFS/");
        reveal_strlit("Shutting down shell...");
    }
    if word.is_empty() {
        return short_ascii("");
    }
    if str_eq(word, "help") {
        short_ascii("Available: help, clear, info, ls, whoami, exit")
    } else if str_eq(word, "clear") {
        short_ascii("")
    } else if str_eq(word, "info") {
        short_ascii("Phoenix OS v0.1.0 - Cognitive Core Active")
    } else if str_eq(word, "whoami") {
        short_ascii("root@phoenix")
    } else if str_eq(word, "ls") {
        short_ascii("Documents/ System/ PhoenixFS/")
    } else if str_eq(word, "exit") {
        short_ascii("Shutting down shell...")
    } else {
        concat2("Unknown command: ", word)
    }
}

} // verus!
