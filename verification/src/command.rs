//! Assembly of the argument vector for the external image utility, and the
//! redacted one-line rendering of the invocation for logging.
//!
//! The utility's argument grammar — an action keyword, flagged options in a
//! fixed order, and the output path as a trailing positional token — is a
//! versioned contract this launcher must match exactly.

use crate::config::DmgConfig;
use crate::redact::spec_redact;
use vstd::prelude::*;

verus! {

/// The exact token sequence handed to the external utility: the create
/// action, then size, filesystem, image type, encryption and volume name as
/// flagged options, then the passphrase flag and value, then the output path
/// as the single trailing positional token.
pub open spec fn arg_tokens(c: &DmgConfig, passphrase: Seq<char>) -> Seq<Seq<char>> {
    seq![
        "create"@,
        "-size"@,
        c.size@,
        "-fs"@,
        c.filesystem@,
        "-type"@,
        c.image_type@,
        "-encryption"@,
        c.encryption@,
        "-volname"@,
        c.volume_name@,
        "-passphrase"@,
        passphrase,
        c.output@,
    ]
}

/// Build the argument vector for the external utility.
///
/// The passphrase is placed in the vector in clear text on purpose: it is
/// handed to the child as a plain process argument, which other processes on
/// the host can observe while the child runs. Only the log line is redacted.
pub fn build_args(c: &DmgConfig, passphrase: &str) -> (r: Vec<String>)
    ensures
        r.deep_view() == arg_tokens(c, passphrase@),
{
    let mut r: Vec<String> = Vec::new();
    r.push(String::from_str("create"));
    r.push(String::from_str("-size"));
    r.push(c.size.clone());
    r.push(String::from_str("-fs"));
    r.push(c.filesystem.clone());
    r.push(String::from_str("-type"));
    r.push(c.image_type.clone());
    r.push(String::from_str("-encryption"));
    r.push(c.encryption.clone());
    r.push(String::from_str("-volname"));
    r.push(c.volume_name.clone());
    r.push(String::from_str("-passphrase"));
    r.push(String::from_str(passphrase));
    r.push(c.output.clone());
    proof {
        assert(r.deep_view() =~~= arg_tokens(c, passphrase@));
    }
    r
}

/// Each token of `toks` as it appears in the log line, passphrase masked.
pub open spec fn redacted_tokens(toks: Seq<Seq<char>>, passphrase: Seq<char>) -> Seq<Seq<char>> {
    toks.map_values(|t: Seq<char>| spec_redact(t, passphrase))
}

/// Tokens joined by single spaces.
pub open spec fn join_spaced(toks: Seq<Seq<char>>) -> Seq<char>
    decreases toks.len(),
{
    if toks.len() == 0 {
        Seq::empty()
    } else if toks.len() == 1 {
        toks[0]
    } else {
        join_spaced(toks.drop_last()) + seq![' '] + toks.last()
    }
}

/// The full log line announcing the invocation: the fixed prefix naming the
/// utility, then each token redacted and the tokens joined by spaces.
pub open spec fn spec_render_line(toks: Seq<Seq<char>>, passphrase: Seq<char>) -> Seq<char> {
    "Running: hdiutil "@ + join_spaced(redacted_tokens(toks, passphrase))
}

/// Render the announcement line that is printed before the utility runs,
/// with the passphrase masked.
pub fn render_command(args: &Vec<String>, passphrase: &str) -> (r: String)
    ensures
        r@ == spec_render_line(args.deep_view(), passphrase@),
{
    let mut out = String::from_str("Running: hdiutil ");
    let n = args.len();
    let mut i: usize = 0;
    while i < n
        invariant
            i <= n,
            n == args@.len(),
            out@ == "Running: hdiutil "@ + join_spaced(
                redacted_tokens(args.deep_view().subrange(0, i as int), passphrase@),
            ),
        decreases n - i,
    {
        if i > 0 {
            out.append(" ");
            proof {
                reveal_strlit(" ");
                assert(" "@ =~= seq![' ']);
            }
        }
        let tok = crate::redact::redact_arg(args[i].as_str(), passphrase);
        out.append(tok.as_str());
        proof {
            let all = args.deep_view();
            let sub0 = redacted_tokens(all.subrange(0, i as int), passphrase@);
            let sub1 = redacted_tokens(all.subrange(0, i + 1), passphrase@);
            assert(sub1.drop_last() =~= sub0);
            assert(sub1.last() == spec_redact(all[i as int], passphrase@));
            if i > 0 {
                assert(join_spaced(sub1) == join_spaced(sub0) + seq![' '] + sub1.last());
            } else {
                assert(join_spaced(sub1) == sub1.last());
            }
            assert(out@ =~= "Running: hdiutil "@ + join_spaced(sub1));
        }
        i += 1;
    }
    proof {
        assert(args.deep_view().subrange(0, n as int) =~= args.deep_view());
    }
    out
}

} // verus!
