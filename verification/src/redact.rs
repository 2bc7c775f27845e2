//! Redaction of the command line for logging: a token equal to the passphrase
//! is replaced by a fixed six-asterisk mask, and any token that holds a space
//! or a quote character is rendered quoted and escaped so the printed line is
//! unambiguous. This protects the terminal transcript only; the passphrase is
//! still handed to the child process as a plain argument.

use vstd::prelude::*;

verus! {

/// A character that forces a token to be quoted in the log line.
pub open spec fn is_special_char(c: char) -> bool {
    c == ' ' || c == '"' || c == '\''
}

/// Whether a token must be quoted before it is printed.
pub open spec fn needs_quoting(s: Seq<char>) -> bool {
    exists|i: int| 0 <= i < s.len() && is_special_char(s[i])
}

/// How one character is written inside a quoted token: backslashes and double
/// quotes gain a backslash, everything else stands as it is.
pub open spec fn escape_char(c: char) -> Seq<char> {
    if c == '"' {
        seq!['\\', '"']
    } else if c == '\\' {
        seq!['\\', '\\']
    } else {
        seq![c]
    }
}

/// The body of a quoted token: each character escaped, in order.
pub open spec fn escape_chars(s: Seq<char>) -> Seq<char>
    decreases s.len(),
{
    if s.len() == 0 {
        Seq::empty()
    } else {
        escape_chars(s.drop_last()) + escape_char(s.last())
    }
}

/// A token rendered with surrounding double quotes and escaping.
pub open spec fn quoted(s: Seq<char>) -> Seq<char> {
    seq!['"'] + escape_chars(s) + seq!['"']
}

/// The fixed mask that stands in for the passphrase in the log line.
pub open spec fn mask_text() -> Seq<char> {
    "******"@
}

/// How one argument token appears in the log line: masked first when it is
/// exactly the passphrase, then quoted when the displayed text needs it.
pub open spec fn spec_redact(arg: Seq<char>, passphrase: Seq<char>) -> Seq<char> {
    let display = if arg == passphrase {
        mask_text()
    } else {
        arg
    };
    if needs_quoting(display) {
        quoted(display)
    } else {
        display
    }
}

/// `needle` occurs contiguously inside `hay`.
pub open spec fn is_substring(needle: Seq<char>, hay: Seq<char>) -> bool {
    exists|i: int|
        0 <= i <= hay.len() - needle.len() && #[trigger] hay.subrange(i, i + needle.len())
            == needle
}

/// Whether `s` holds a character that forces quoting.
fn contains_special(s: &str) -> (r: bool)
    ensures
        r == needs_quoting(s@),
{
    let n = s.unicode_len();
    let mut i: usize = 0;
    while i < n
        invariant
            i <= n,
            n == s@.len(),
            forall|j: int| 0 <= j < i ==> !is_special_char(s@[j]),
        decreases n - i,
    {
        let c = s.get_char(i);
        if c == ' ' || c == '"' || c == '\'' {
            return true;
        }
        i += 1;
    }
    false
}

/// Render `s` quoted: surrounding double quotes, with backslashes and double
/// quotes inside escaped by a backslash.
fn quote_token(s: &str) -> (r: String)
    ensures
        r@ == quoted(s@),
{
    let n = s.unicode_len();
    let mut out = String::from_str("\"");
    proof {
        reveal_strlit("\"");
        assert(out@ =~= seq!['"']);
    }
    let mut i: usize = 0;
    while i < n
        invariant
            i <= n,
            n == s@.len(),
            out@ == seq!['"'] + escape_chars(s@.subrange(0, i as int)),
        decreases n - i,
    {
        let c = s.get_char(i);
        if c == '"' {
            out.append("\\\"");
            proof {
                reveal_strlit("\\\"");
                assert("\\\""@ =~= escape_char(c));
            }
        } else if c == '\\' {
            out.append("\\\\");
            proof {
                reveal_strlit("\\\\");
                assert("\\\\"@ =~= escape_char(c));
            }
        } else {
            let piece = s.substring_char(i, i + 1);
            out.append(piece);
            proof {
                assert(piece@ =~= escape_char(c));
            }
        }
        proof {
            let sub1 = s@.subrange(0, i + 1);
            assert(sub1.drop_last() =~= s@.subrange(0, i as int));
            assert(sub1.last() == s@[i as int]);
        }
        i += 1;
    }
    out.append("\"");
    proof {
        assert(s@.subrange(0, n as int) =~= s@);
        assert(out@ =~= quoted(s@));
    }
    out
}

/// Render one argument token for the log line: the passphrase is masked, and
/// a displayed token holding a space or a quote character is quoted.
pub fn redact_arg(arg: &str, passphrase: &str) -> (r: String)
    ensures
        r@ == spec_redact(arg@, passphrase@),
{
    let display: &str = if crate::strutil::str_eq(arg, passphrase) {
        "******"
    } else {
        arg
    };
    if contains_special(display) {
        quote_token(display)
    } else {
        String::from_str(display)
    }
}

/// Redaction masks the passphrase: a token exactly equal to the passphrase is
/// rendered as the fixed six-asterisk mask, and — as long as the passphrase is
/// not itself a run of at most six asterisks — the passphrase does not occur
/// anywhere in that rendering.
pub proof fn lemma_redaction_masks(passphrase: Seq<char>)
    requires
        passphrase.len() > 6 || exists|i: int|
            0 <= i < passphrase.len() && passphrase[i] != '*',
    ensures
        spec_redact(passphrase, passphrase) == mask_text(),
        !is_substring(passphrase, spec_redact(passphrase, passphrase)),
{
    reveal_strlit("******");
    assert(mask_text().len() == 6);
    assert(forall|j: int| 0 <= j < 6 ==> mask_text()[j] == '*');
    assert(!needs_quoting(mask_text()));
    assert(spec_redact(passphrase, passphrase) == mask_text());
    if passphrase.len() > 6 {
        assert(!is_substring(passphrase, mask_text()));
    } else {
        let k = choose|i: int| 0 <= i < passphrase.len() && passphrase[i] != '*';
        assert forall|i: int| !(0 <= i <= mask_text().len() - passphrase.len()
            && #[trigger] mask_text().subrange(i, i + passphrase.len()) == passphrase) by {
            if 0 <= i <= mask_text().len() - passphrase.len() {
                assert(mask_text().subrange(i, i + passphrase.len())[k] == '*');
            }
        }
    }
}

/// In a redacted argument list, the token at any position whose original text
/// equals the passphrase is the rendering of the mask.
pub proof fn lemma_redaction_in_list(args: Seq<Seq<char>>, passphrase: Seq<char>, i: int)
    requires
        0 <= i < args.len(),
        args[i] == passphrase,
    ensures
        args.map_values(|a: Seq<char>| spec_redact(a, passphrase))[i]
            == spec_redact(passphrase, passphrase),
{
}

/// Quoting: a token (other than the passphrase) holding a space or a quote
/// character is rendered with surrounding double quotes; one holding no such
/// character is rendered unchanged.
pub proof fn lemma_quoting(tok: Seq<char>, passphrase: Seq<char>)
    requires
        tok != passphrase,
    ensures
        needs_quoting(tok) ==> {
            let r = spec_redact(tok, passphrase);
            r.len() >= 2 && r.first() == '"' && r.last() == '"'
        },
        !needs_quoting(tok) ==> spec_redact(tok, passphrase) == tok,
{
    if needs_quoting(tok) {
        let r = spec_redact(tok, passphrase);
        assert(r == quoted(tok));
        assert(r.first() == '"');
        assert(r.last() == '"');
    }
}

} // verus!
