//! The general properties of a scan, proved once over the model.
//!
//! Each proof function states one law of `model::scan_from` /
//! `model::scan_result`, which the executable scanner's contracts carry
//! over to `Scanner::scan_tokens`.

use crate::model::{
    eof_token, is_skipped, pair_alone_kind, pair_equal_kind, pair_start, plain_token, scan_from,
    scan_result, single_char_kind, unexpected_message, SpecError,
};
use vstd::prelude::*;

verus! {

/// From any position and line, the token list of a scan is non-empty and
/// ends with the end-of-input token: the `Eof` kind and an empty lexeme.
pub proof fn lemma_scan_from_ends_with_eof(s: Seq<char>, i: int, line: int)
    ensures
        scan_from(s, i, line).0.len() >= 1,
        scan_from(s, i, line).0.last().token_type is Eof,
        scan_from(s, i, line).0.last().lexeme.len() == 0,
    decreases s.len() - i,
{
    if i < 0 || i >= s.len() {
    } else {
        let c = s[i];
        if c == '\n' {
            lemma_scan_from_ends_with_eof(s, i + 1, line + 1);
        } else if is_skipped(c) {
            lemma_scan_from_ends_with_eof(s, i + 1, line);
        } else if single_char_kind(c) is Some {
            lemma_scan_from_ends_with_eof(s, i + 1, line);
        } else if pair_start(c) {
            if i + 1 < s.len() && s[i + 1] == '=' {
                lemma_scan_from_ends_with_eof(s, i + 2, line);
            } else {
                lemma_scan_from_ends_with_eof(s, i + 1, line);
            }
        } else {
            lemma_scan_from_ends_with_eof(s, i + 1, line);
        }
    }
}

/// For every input string, the produced token list's last element is the
/// `Eof` kind with an empty lexeme — including the empty string.
pub proof fn lemma_scan_ends_with_eof(s: Seq<char>)
    ensures
        scan_result(s).0.len() >= 1,
        scan_result(s).0.last().token_type is Eof,
        scan_result(s).0.last().lexeme.len() == 0,
{
    lemma_scan_from_ends_with_eof(s, 0, 1);
}

/// Scanning one single-character punctuation token alone yields exactly
/// two tokens — the matching kind with the character as its lexeme, then
/// `Eof` — and no errors.
pub proof fn lemma_single_char_scan(c: char)
    requires
        single_char_kind(c) is Some,
    ensures
        scan_result(seq![c]).0 == seq![
            plain_token(single_char_kind(c)->Some_0, seq![c], 1),
            eof_token(1),
        ],
        scan_result(seq![c]).1 == Seq::<SpecError>::empty(),
{
    let s = seq![c];
    let rest = scan_from(s, 1, 1);
    assert(rest.0 =~= seq![eof_token(1)]);
    assert(seq![plain_token(single_char_kind(c)->Some_0, seq![c], 1)] + rest.0 =~= seq![
        plain_token(single_char_kind(c)->Some_0, seq![c], 1),
        eof_token(1),
    ]);
    assert(scan_result(s).1 =~= Seq::<SpecError>::empty());
}

/// Scanning a pair-start character followed by `=` yields exactly one
/// token of the combined two-character kind, whose lexeme is the full two
/// characters, then `Eof`, and no errors.
pub proof fn lemma_pair_scan(c: char)
    requires
        pair_start(c),
    ensures
        scan_result(seq![c, '=']).0 == seq![
            plain_token(pair_equal_kind(c), seq![c, '='], 1),
            eof_token(1),
        ],
        scan_result(seq![c, '=']).1 == Seq::<SpecError>::empty(),
{
    let s = seq![c, '='];
    let rest = scan_from(s, 2, 1);
    assert(rest.0 =~= seq![eof_token(1)]);
    assert(seq![plain_token(pair_equal_kind(c), seq![c, '='], 1)] + rest.0 =~= seq![
        plain_token(pair_equal_kind(c), seq![c, '='], 1),
        eof_token(1),
    ]);
    assert(scan_result(s).1 =~= Seq::<SpecError>::empty());
}

/// The one-character lookahead does not consume on a mismatch: a
/// pair-start character not followed by `=` — or standing at the end of
/// the input — is emitted as the one-character kind with its own lexeme,
/// and scanning resumes fresh at the very next position.
pub proof fn lemma_lookahead_does_not_consume(s: Seq<char>, i: int, line: int)
    requires
        0 <= i < s.len(),
        pair_start(s[i]),
        i + 1 < s.len() ==> s[i + 1] != '=',
    ensures
        scan_from(s, i, line).0 == seq![plain_token(pair_alone_kind(s[i]), seq![s[i]], line)]
            + scan_from(s, i + 1, line).0,
        scan_from(s, i, line).1 == scan_from(s, i + 1, line).1,
{
}

/// A character outside the recognized set yields no token, exactly one
/// error carrying `Unexpected character: <c>` at the current line, and
/// scanning continues at the next position unaffected.
pub proof fn lemma_unrecognized_char(s: Seq<char>, i: int, line: int)
    requires
        0 <= i < s.len(),
        !is_skipped(s[i]),
        single_char_kind(s[i]) is None,
        !pair_start(s[i]),
    ensures
        scan_from(s, i, line).0 == scan_from(s, i + 1, line).0,
        scan_from(s, i, line).1 == seq![
            SpecError { line, message: unexpected_message(s[i]) },
        ] + scan_from(s, i + 1, line).1,
{
}

/// Every token before the final one is a proper token: the end-of-input
/// kind appears exactly once, at the end, and the `Unrecognized`
/// classification never reaches the token list — it is turned into an
/// error record and dropped.
pub proof fn lemma_proper_tokens_before_eof(s: Seq<char>, i: int, line: int)
    ensures
        forall|k: int|
            0 <= k < scan_from(s, i, line).0.len() - 1 ==> !((#[trigger] scan_from(
                s,
                i,
                line,
            ).0[k]).token_type is Eof) && !(scan_from(s, i, line).0[k].token_type is Unrecognized),
    decreases s.len() - i,
{
    if i < 0 || i >= s.len() {
    } else {
        let c = s[i];
        let toks = scan_from(s, i, line).0;
        if c == '\n' {
            lemma_proper_tokens_before_eof(s, i + 1, line + 1);
        } else if is_skipped(c) {
            lemma_proper_tokens_before_eof(s, i + 1, line);
        } else if single_char_kind(c) is Some {
            lemma_proper_tokens_before_eof(s, i + 1, line);
            let rest = scan_from(s, i + 1, line).0;
            assert forall|k: int| 0 <= k < toks.len() - 1 implies !((#[trigger] toks[k]).token_type
                is Eof) && !(toks[k].token_type is Unrecognized) by {
                if k > 0 {
                    assert(toks[k] == rest[k - 1]);
                }
            }
        } else if pair_start(c) {
            if i + 1 < s.len() && s[i + 1] == '=' {
                lemma_proper_tokens_before_eof(s, i + 2, line);
                let rest = scan_from(s, i + 2, line).0;
                assert forall|k: int| 0 <= k < toks.len() - 1 implies !((#[trigger] toks[k]).token_type
                    is Eof) && !(toks[k].token_type is Unrecognized) by {
                    if k > 0 {
                        assert(toks[k] == rest[k - 1]);
                    }
                }
            } else {
                lemma_proper_tokens_before_eof(s, i + 1, line);
                let rest = scan_from(s, i + 1, line).0;
                assert forall|k: int| 0 <= k < toks.len() - 1 implies !((#[trigger] toks[k]).token_type
                    is Eof) && !(toks[k].token_type is Unrecognized) by {
                    if k > 0 {
                        assert(toks[k] == rest[k - 1]);
                    }
                }
            }
        } else {
            lemma_proper_tokens_before_eof(s, i + 1, line);
        }
    }
}

/// A scan is a pure function of the source text: equal sources give equal
/// token lists and equal error lists, whichever scanner instance runs it.
pub proof fn lemma_scan_deterministic(s1: Seq<char>, s2: Seq<char>)
    requires
        s1 == s2,
    ensures
        scan_result(s1) == scan_result(s2),
{
}

} // verus!
