use vstd::prelude::*;
use vstd::string::StringExecFns;
use vstd::string::StrSliceExecFns;

use crate::logger::Logger;
use crate::models::AppConfig;
use crate::text::{debug_list, decimal_text, list_debug_text, texts, unsigned_decimal};

verus! {

/// A token has the shape of an option when it begins with a dash.
pub open spec fn starts_with_dash(token: Seq<char>) -> bool {
    token.len() > 0 && token[0] == '-'
}

/// What the left-to-right scan keeps of `args` from position `from` on.
///
/// A token that equals an allowed flag is kept. If the token after it exists
/// and does not begin with a dash, it is that flag's value: it is kept too and
/// is not looked at as a flag. Every other token is dropped.
pub open spec fn kept_from(args: Seq<Seq<char>>, allowed: Seq<Seq<char>>, from: int) -> Seq<
    Seq<char>,
>
    decreases args.len() - from,
{
    if from < 0 || from >= args.len() {
        Seq::empty()
    } else if !allowed.contains(args[from]) {
        kept_from(args, allowed, from + 1)
    } else if from + 1 < args.len() && !starts_with_dash(args[from + 1]) {
        seq![args[from], args[from + 1]] + kept_from(args, allowed, from + 2)
    } else {
        seq![args[from]] + kept_from(args, allowed, from + 1)
    }
}

/// The token that tells the tool to read cookies from `browser`.
pub open spec fn cookie_token(browser: Seq<char>) -> Seq<char> {
    "--cookies-from-browser="@ + browser
}

/// The tokens appended after the scan: no token, or the cookie token alone.
pub open spec fn cookie_tail(cookies: bool, browser: Seq<char>) -> Seq<Seq<char>> {
    if cookies {
        seq![cookie_token(browser)]
    } else {
        Seq::empty()
    }
}

/// The argument list handed to the tool: what the scan keeps of `args`, then
/// every custom argument in its configured order, then the cookie token if
/// cookies are enabled.
pub open spec fn filtered(
    args: Seq<Seq<char>>,
    allowed: Seq<Seq<char>>,
    custom: Seq<Seq<char>>,
    cookies: bool,
    browser: Seq<char>,
) -> Seq<Seq<char>> {
    kept_from(args, allowed, 0) + custom + cookie_tail(cookies, browser)
}

/// The argument list that `config` makes of `args`.
pub open spec fn filtered_by(args: Seq<String>, config: AppConfig) -> Seq<Seq<char>> {
    filtered(
        texts(args),
        texts(config.allowed_args@),
        texts(config.custom_args@),
        config.cookies,
        config.cookies_browser@,
    )
}

/// Whether the scan that starts at `from` looks at position `i` as a flag,
/// rather than passing over it as the value of the flag before it.
pub open spec fn scan_visits(
    args: Seq<Seq<char>>,
    allowed: Seq<Seq<char>>,
    from: int,
    i: int,
) -> bool
    decreases args.len() - from,
{
    if from < 0 || from >= args.len() || i < from {
        false
    } else if i == from {
        true
    } else if allowed.contains(args[from]) && from + 1 < args.len() && !starts_with_dash(
        args[from + 1],
    ) {
        scan_visits(args, allowed, from + 2, i)
    } else {
        scan_visits(args, allowed, from + 1, i)
    }
}

/// The number of tokens that the scan has kept when it arrives at position `i`.
pub open spec fn kept_before(args: Seq<Seq<char>>, allowed: Seq<Seq<char>>, i: int) -> int {
    kept_from(args, allowed, 0).len() - kept_from(args, allowed, i).len()
}

/// Position `i` of `args` holds `token`, and the scan from `from` took it as
/// the value of an allowed flag: it visited the position before, found an
/// allowed flag there, and `token` does not begin with a dash.
pub open spec fn is_value_at(
    args: Seq<Seq<char>>,
    allowed: Seq<Seq<char>>,
    from: int,
    i: int,
    token: Seq<char>,
) -> bool {
    &&& 1 <= i < args.len()
    &&& scan_visits(args, allowed, from, i - 1)
    &&& allowed.contains(args[i - 1])
    &&& !starts_with_dash(args[i])
    &&& args[i] == token
}

/// What the scan keeps from a position that it visits is the tail of what it
/// keeps from any earlier position that it visits.
pub proof fn lemma_visit_keeps_tail(
    args: Seq<Seq<char>>,
    allowed: Seq<Seq<char>>,
    from: int,
    i: int,
)
    requires
        scan_visits(args, allowed, from, i),
    ensures
        kept_from(args, allowed, i).len() <= kept_from(args, allowed, from).len(),
        kept_from(args, allowed, from).skip(
            kept_from(args, allowed, from).len() - kept_from(args, allowed, i).len(),
        ) == kept_from(args, allowed, i),
    decreases args.len() - from,
{
    if i != from {
        let next: int = if allowed.contains(args[from]) && from + 1 < args.len()
            && !starts_with_dash(args[from + 1]) {
            from + 2
        } else {
            from + 1
        };
        lemma_visit_keeps_tail(args, allowed, next, i);
    }
}

/// The scan follows one path: of two positions that it visits from `from`,
/// the later one is visited from the earlier one.
pub proof fn lemma_visits_are_chained(
    args: Seq<Seq<char>>,
    allowed: Seq<Seq<char>>,
    from: int,
    i: int,
    j: int,
)
    requires
        scan_visits(args, allowed, from, i),
        scan_visits(args, allowed, from, j),
        i <= j,
    ensures
        scan_visits(args, allowed, i, j),
    decreases args.len() - from,
{
    if i != from {
        let next: int = if allowed.contains(args[from]) && from + 1 < args.len()
            && !starts_with_dash(args[from + 1]) {
            from + 2
        } else {
            from + 1
        };
        lemma_visits_are_chained(args, allowed, next, i, j);
    }
}

/// A token that begins with a dash is never passed over as a value: the scan
/// from `from` visits every position at or after `from` that holds one.
pub proof fn lemma_dash_token_is_visited(
    args: Seq<Seq<char>>,
    allowed: Seq<Seq<char>>,
    from: int,
    i: int,
)
    requires
        0 <= from <= i < args.len(),
        starts_with_dash(args[i]),
    ensures
        scan_visits(args, allowed, from, i),
    decreases args.len() - from,
{
    if i != from {
        if allowed.contains(args[from]) && from + 1 < args.len() && !starts_with_dash(
            args[from + 1],
        ) {
            lemma_dash_token_is_visited(args, allowed, from + 2, i);
        } else {
            lemma_dash_token_is_visited(args, allowed, from + 1, i);
        }
    }
}

/// Filtering is a function of its inputs: two results for the same arguments
/// and the same policy are the same list.
pub proof fn lemma_filter_is_repeatable(
    args: Seq<String>,
    config: AppConfig,
    first: Vec<String>,
    second: Vec<String>,
)
    requires
        texts(first@) == filtered_by(args, config),
        texts(second@) == filtered_by(args, config),
    ensures
        texts(first@) == texts(second@),
        first@.len() == second@.len(),
        forall|k: int| 0 <= k < first@.len() ==> first@[k]@ == second@[k]@,
{
    assert(second@.len() == texts(second@).len());
    assert forall|k: int| 0 <= k < first@.len() implies first@[k]@ == second@[k]@ by {
        assert(texts(second@)[k] == second@[k]@);
    }
}

/// An allowed flag that the scan visits at position `i`, followed by a token
/// that does not begin with a dash, stands in the output directly before that
/// token, at the place that the scan had reached.
pub proof fn lemma_flag_keeps_its_value(
    args: Seq<Seq<char>>,
    allowed: Seq<Seq<char>>,
    custom: Seq<Seq<char>>,
    cookies: bool,
    browser: Seq<char>,
    i: int,
)
    requires
        0 <= i,
        i + 1 < args.len(),
        allowed.contains(args[i]),
        !starts_with_dash(args[i + 1]),
        scan_visits(args, allowed, 0, i),
    ensures
        0 <= kept_before(args, allowed, i),
        kept_before(args, allowed, i) + 1 < filtered(args, allowed, custom, cookies, browser).len(),
        filtered(args, allowed, custom, cookies, browser)[kept_before(args, allowed, i)]
            == args[i],
        filtered(args, allowed, custom, cookies, browser)[kept_before(args, allowed, i) + 1]
            == args[i + 1],
{
    lemma_visit_keeps_tail(args, allowed, 0, i);
    let whole = kept_from(args, allowed, 0);
    let k: int = kept_before(args, allowed, i);
    assert(whole.skip(k)[0] == whole[k]);
    assert(whole.skip(k)[1] == whole[k + 1]);
}

/// A flag that begins with a dash is always visited, so an allowed one that is
/// followed by a token without a leading dash keeps that token behind it in
/// the output.
pub proof fn lemma_dash_flag_keeps_its_value(
    args: Seq<Seq<char>>,
    allowed: Seq<Seq<char>>,
    custom: Seq<Seq<char>>,
    cookies: bool,
    browser: Seq<char>,
    i: int,
)
    requires
        0 <= i,
        i + 1 < args.len(),
        allowed.contains(args[i]),
        starts_with_dash(args[i]),
        !starts_with_dash(args[i + 1]),
    ensures
        0 <= kept_before(args, allowed, i),
        kept_before(args, allowed, i) + 1 < filtered(args, allowed, custom, cookies, browser).len(),
        filtered(args, allowed, custom, cookies, browser)[kept_before(args, allowed, i)]
            == args[i],
        filtered(args, allowed, custom, cookies, browser)[kept_before(args, allowed, i) + 1]
            == args[i + 1],
{
    lemma_dash_token_is_visited(args, allowed, 0, i);
    lemma_flag_keeps_its_value(args, allowed, custom, cookies, browser, i);
}

/// Flags with their values come out in the order in which they went in: of
/// two allowed flags that the scan visits, each followed by a value, the
/// earlier pair stands wholly before the later pair in the output.
pub proof fn lemma_pairs_keep_their_order(
    args: Seq<Seq<char>>,
    allowed: Seq<Seq<char>>,
    i: int,
    j: int,
)
    requires
        0 <= i < j,
        j + 1 < args.len(),
        allowed.contains(args[i]),
        !starts_with_dash(args[i + 1]),
        scan_visits(args, allowed, 0, i),
        scan_visits(args, allowed, 0, j),
    ensures
        kept_before(args, allowed, i) + 2 <= kept_before(args, allowed, j),
{
    lemma_visits_are_chained(args, allowed, 0, i, j);
    lemma_visit_keeps_tail(args, allowed, i + 2, j);
}

/// No token that is not allowed survives the scan, except as the value that
/// the scan took after an allowed flag: every token that is kept is an allowed
/// flag, or stands in the input directly behind an allowed flag that the scan
/// visited, and does not begin with a dash.
pub proof fn lemma_kept_is_allowed_or_value(
    args: Seq<Seq<char>>,
    allowed: Seq<Seq<char>>,
    from: int,
    k: int,
)
    requires
        0 <= from,
        0 <= k < kept_from(args, allowed, from).len(),
    ensures
        allowed.contains(kept_from(args, allowed, from)[k]) || exists|i: int|
            #[trigger] is_value_at(args, allowed, from, i, kept_from(args, allowed, from)[k]),
    decreases args.len() - from,
{
    let token = kept_from(args, allowed, from)[k];
    if !allowed.contains(args[from]) {
        lemma_kept_is_allowed_or_value(args, allowed, from + 1, k);
        if !allowed.contains(token) {
            let i: int = choose|i: int| #[trigger] is_value_at(args, allowed, from + 1, i, token);
            assert(is_value_at(args, allowed, from, i, token));
        }
    } else if from + 1 < args.len() && !starts_with_dash(args[from + 1]) {
        if k == 1 {
            assert(is_value_at(args, allowed, from, from + 1, token));
        } else if k >= 2 {
            lemma_kept_is_allowed_or_value(args, allowed, from + 2, k - 2);
            if !allowed.contains(token) {
                let i: int = choose|i: int|
                    #[trigger] is_value_at(args, allowed, from + 2, i, token);
                assert(is_value_at(args, allowed, from, i, token));
            }
        }
    } else if k >= 1 {
        lemma_kept_is_allowed_or_value(args, allowed, from + 1, k - 1);
        if !allowed.contains(token) {
            let i: int = choose|i: int| #[trigger] is_value_at(args, allowed, from + 1, i, token);
            assert(is_value_at(args, allowed, from, i, token));
        }
    }
}

/// The custom arguments stand in the output for every input, in their
/// configured order, directly behind what the scan kept.
pub proof fn lemma_custom_args_are_appended(
    args: Seq<Seq<char>>,
    allowed: Seq<Seq<char>>,
    custom: Seq<Seq<char>>,
    cookies: bool,
    browser: Seq<char>,
)
    ensures
        filtered(args, allowed, custom, cookies, browser).subrange(
            kept_from(args, allowed, 0).len() as int,
            (kept_from(args, allowed, 0).len() + custom.len()) as int,
        ) == custom,
{
}

/// The cookie token is appended if and only if cookies are enabled: the
/// output then ends with `--cookies-from-browser=` and the browser's name, and
/// otherwise ends with the last custom argument.
pub proof fn lemma_cookie_token_follows_toggle(
    args: Seq<Seq<char>>,
    allowed: Seq<Seq<char>>,
    custom: Seq<Seq<char>>,
    cookies: bool,
    browser: Seq<char>,
)
    ensures
        filtered(args, allowed, custom, cookies, browser).len() == kept_from(args, allowed, 0).len()
            + custom.len() + if cookies {
            1int
        } else {
            0int
        },
        cookies ==> filtered(args, allowed, custom, cookies, browser).last()
            == "--cookies-from-browser="@ + browser,
        !cookies ==> filtered(args, allowed, custom, cookies, browser) == kept_from(
            args,
            allowed,
            0,
        ) + custom,
{
}

/// What the scan reports to the log of `args` from position `from` on: for
/// each token that it looks at, whether the token was kept, taken as a value
/// or removed.
pub open spec fn scan_notes(args: Seq<Seq<char>>, allowed: Seq<Seq<char>>, from: int) -> Seq<
    Seq<char>,
>
    decreases args.len() - from,
{
    if from < 0 || from >= args.len() {
        Seq::empty()
    } else if !allowed.contains(args[from]) {
        seq!["Removing disallowed arg: "@ + args[from]] + scan_notes(args, allowed, from + 1)
    } else if from + 1 < args.len() && !starts_with_dash(args[from + 1]) {
        seq![
            "Keeping allowed arg: "@ + args[from],
            "Adding arg value: "@ + args[from + 1],
        ] + scan_notes(args, allowed, from + 2)
    } else {
        seq!["Keeping allowed arg: "@ + args[from]] + scan_notes(args, allowed, from + 1)
    }
}

/// The numbered listing of a finished argument list, counted from one.
pub open spec fn listing_notes(out: Seq<Seq<char>>) -> Seq<Seq<char>> {
    Seq::new(out.len(), |i: int| "  ["@ + decimal_text(i + 1) + "] "@ + out[i])
}

/// What is reported of the custom arguments.
pub open spec fn custom_note(custom: Seq<Seq<char>>) -> Seq<char> {
    if custom.len() > 0 {
        "Adding "@ + decimal_text(custom.len() as int) + " custom args from config: "@
            + list_debug_text(custom)
    } else {
        "No custom args in config"@
    }
}

/// What is reported of the cookie token.
pub open spec fn cookie_note(cookies: bool, browser: Seq<char>) -> Seq<char> {
    if cookies {
        "Adding cookies arg: "@ + cookie_token(browser)
    } else {
        "Cookies disabled in config"@
    }
}

/// Everything that filtering reports to the log, in order.
pub open spec fn filter_notes(
    args: Seq<Seq<char>>,
    allowed: Seq<Seq<char>>,
    custom: Seq<Seq<char>>,
    cookies: bool,
    browser: Seq<char>,
) -> Seq<Seq<char>> {
    seq![
        "Building yt-dlp arguments"@,
        "Input arguments ("@ + decimal_text(args.len() as int) + "): "@ + list_debug_text(args),
        "Allowed args: "@ + list_debug_text(allowed),
    ] + scan_notes(args, allowed, 0) + seq![
        "After filtering: "@ + decimal_text(kept_from(args, allowed, 0).len() as int)
            + " args kept"@,
        custom_note(custom),
        cookie_note(cookies, browser),
        "yt-dlp arguments ("@ + decimal_text(
            filtered(args, allowed, custom, cookies, browser).len() as int,
        ) + ")"@,
    ] + listing_notes(filtered(args, allowed, custom, cookies, browser))
}

/// What filtering by `config` reports of `args`.
pub open spec fn filter_notes_by(args: Seq<String>, config: AppConfig) -> Seq<Seq<char>> {
    filter_notes(
        texts(args),
        texts(config.allowed_args@),
        texts(config.custom_args@),
        config.cookies,
        config.cookies_browser@,
    )
}

/// Each note as the debug message that the log holds for it.
pub open spec fn debug_messages(notes: Seq<Seq<char>>) -> Seq<Seq<char>> {
    Seq::new(notes.len(), |i: int| "DEBUG: "@ + notes[i])
}

/// Whether `token` begins with a dash.
pub fn has_leading_dash(token: &String) -> (r: bool)
    ensures
        r == starts_with_dash(token@),
{
    let text = token.as_str();
    if text.is_empty() {
        false
    } else {
        text.get_char(0) == '-'
    }
}

/// Whether `token` equals one of `list`, compared as text.
pub fn contains_token(list: &Vec<String>, token: &String) -> (r: bool)
    ensures
        r == texts(list@).contains(token@),
{
    let mut i: usize = 0;
    while i < list.len()
        invariant
            i <= list.len(),
            forall|j: int| 0 <= j < i ==> texts(list@)[j] != token@,
        decreases list.len() - i,
    {
        if list[i] == *token {
            assert(texts(list@)[i as int] == token@);
            return true;
        }
        i += 1;
    }
    false
}

/// Builds the argument lists that are handed to the managed tool.
pub struct ArgumentParser;

impl ArgumentParser {
    /// Applies the policy of `config` to `args`: keeps the allowed flags and
    /// their values, appends the custom arguments, and appends the cookie token
    /// if cookies are enabled.
    pub fn filter_arguments(args: &[String], config: &AppConfig) -> (out: Vec<String>)
        ensures
            texts(out@) == filtered_by(args@, *config),
    {
        let ghost a = texts(args@);
        let ghost allowed = texts(config.allowed_args@);
        let mut out: Vec<String> = Vec::new();
        let mut i: usize = 0;
        while i < args.len()
            invariant
                i <= args.len(),
                a == texts(args@),
                allowed == texts(config.allowed_args@),
                texts(out@) + kept_from(a, allowed, i as int) == kept_from(a, allowed, 0),
            decreases args.len() - i,
        {
            if contains_token(&config.allowed_args, &args[i]) {
                out.push(args[i].clone());
                if i + 1 < args.len() && !has_leading_dash(&args[i + 1]) {
                    out.push(args[i + 1].clone());
                    i += 1;
                }
            }
            i += 1;
        }
        let ghost kept = texts(out@);
        let mut k: usize = 0;
        while k < config.custom_args.len()
            invariant
                k <= config.custom_args.len(),
                texts(out@) == kept + texts(config.custom_args@).take(k as int),
            decreases config.custom_args.len() - k,
        {
            let ghost head = texts(out@);
            out.push(config.custom_args[k].clone());
            assert(texts(out@) == head + seq![texts(config.custom_args@)[k as int]]);
            k += 1;
        }
        if config.cookies {
            let ghost head = texts(out@);
            let mut token = "--cookies-from-browser=".to_owned();
            token.append(config.cookies_browser.as_str());
            out.push(token);
            assert(texts(out@) == head + seq![cookie_token(config.cookies_browser@)]);
        }
        out
    }

    /// Filters as [`ArgumentParser::filter_arguments`] does and, where a
    /// logger is given, reports to it as debug messages what was kept, what
    /// was removed and what was appended. The result does not depend on the
    /// logger.
    pub fn filter_arguments_with_logger(
        args: &[String],
        config: &AppConfig,
        logger: Option<&mut Logger>,
    ) -> (out: Vec<String>)
        ensures
            texts(out@) == filtered_by(args@, *config),
            match logger {
                Some(log) => {
                    &&& final(log).path() == log.path()
                    &&& final(log).limits() == log.limits()
                    &&& final(log).messages() == log.messages() + debug_messages(
                        filter_notes_by(args@, *config),
                    )
                },
                None => true,
            },
    {
        let out = Self::filter_arguments(args, config);
        match logger {
            Some(log) => {
                let notes = Self::describe(args, config, &out);
                record_debug_notes(log, &notes);
            },
            None => {},
        }
        out
    }

    /// The notes that filtering `args` by `config` leaves in the log, given
    /// the list `out` that it produced.
    fn describe(args: &[String], config: &AppConfig, out: &Vec<String>) -> (notes: Vec<String>)
        requires
            texts(out@) == filtered_by(args@, *config),
        ensures
            texts(notes@) == filter_notes_by(args@, *config),
    {
        let ghost a = texts(args@);
        let ghost allowed = texts(config.allowed_args@);
        let ghost custom = texts(config.custom_args@);
        let mut notes: Vec<String> = Vec::new();
        notes.push("Building yt-dlp arguments".to_owned());
        let mut note = "Input arguments (".to_owned();
        note.append(unsigned_decimal(args.len() as u64).as_str());
        note.append("): ");
        note.append(debug_list(args).as_str());
        notes.push(note);
        let mut note = "Allowed args: ".to_owned();
        note.append(debug_list(config.allowed_args.as_slice()).as_str());
        notes.push(note);
        let ghost head = texts(notes@);
        let mut kept: usize = 0;
        let mut i: usize = 0;
        while i < args.len()
            invariant
                i <= args.len(),
                kept <= i,
                a == texts(args@),
                allowed == texts(config.allowed_args@),
                kept + kept_from(a, allowed, i as int).len() == kept_from(a, allowed, 0).len(),
                texts(notes@) + scan_notes(a, allowed, i as int) == head + scan_notes(
                    a,
                    allowed,
                    0,
                ),
            decreases args.len() - i,
        {
            if contains_token(&config.allowed_args, &args[i]) {
                let mut note = "Keeping allowed arg: ".to_owned();
                note.append(args[i].as_str());
                notes.push(note);
                kept += 1;
                if i + 1 < args.len() && !has_leading_dash(&args[i + 1]) {
                    let mut note = "Adding arg value: ".to_owned();
                    note.append(args[i + 1].as_str());
                    notes.push(note);
                    kept += 1;
                    i += 1;
                }
            } else {
                let mut note = "Removing disallowed arg: ".to_owned();
                note.append(args[i].as_str());
                notes.push(note);
            }
            i += 1;
        }
        let ghost scanned = texts(notes@);
        let mut note = "After filtering: ".to_owned();
        note.append(unsigned_decimal(kept as u64).as_str());
        note.append(" args kept");
        notes.push(note);
        if config.custom_args.len() > 0 {
            let mut note = "Adding ".to_owned();
            note.append(unsigned_decimal(config.custom_args.len() as u64).as_str());
            note.append(" custom args from config: ");
            note.append(debug_list(config.custom_args.as_slice()).as_str());
            notes.push(note);
        } else {
            notes.push("No custom args in config".to_owned());
        }
        if config.cookies {
            let mut token = "--cookies-from-browser=".to_owned();
            token.append(config.cookies_browser.as_str());
            let mut note = "Adding cookies arg: ".to_owned();
            note.append(token.as_str());
            notes.push(note);
        } else {
            notes.push("Cookies disabled in config".to_owned());
        }
        let mut note = "yt-dlp arguments (".to_owned();
        note.append(unsigned_decimal(out.len() as u64).as_str());
        note.append(")");
        notes.push(note);
        let ghost result = filtered_by(args@, *config);
        let ghost summed = texts(notes@);
        assert(summed == scanned + seq![
            "After filtering: "@ + decimal_text(kept_from(a, allowed, 0).len() as int)
                + " args kept"@,
            custom_note(custom),
            cookie_note(config.cookies, config.cookies_browser@),
            "yt-dlp arguments ("@ + decimal_text(result.len() as int) + ")"@,
        ]);
        let mut k: usize = 0;
        while k < out.len()
            invariant
                k <= out.len(),
                texts(out@) == result,
                texts(notes@) == summed + listing_notes(result).take(k as int),
            decreases out.len() - k,
        {
            let ghost before = texts(notes@);
            let mut note = "  [".to_owned();
            note.append(unsigned_decimal(k as u64 + 1).as_str());
            note.append("] ");
            note.append(out[k].as_str());
            notes.push(note);
            assert(texts(notes@) == before + seq![listing_notes(result)[k as int]]);
            k += 1;
        }
        notes
    }
}

/// Records each of `notes` as a debug message, in order.
pub fn record_debug_notes(logger: &mut Logger, notes: &Vec<String>)
    ensures
        final(logger).path() == old(logger).path(),
        final(logger).limits() == old(logger).limits(),
        final(logger).messages() == old(logger).messages() + debug_messages(texts(notes@)),
{
    let ghost wanted = debug_messages(texts(notes@));
    let mut k: usize = 0;
    while k < notes.len()
        invariant
            k <= notes.len(),
            wanted == debug_messages(texts(notes@)),
            logger.path() == old(logger).path(),
            logger.limits() == old(logger).limits(),
            logger.messages() == old(logger).messages() + wanted.take(k as int),
        decreases notes.len() - k,
    {
        logger.log_debug(notes[k].as_str());
        k += 1;
    }
}

} // verus!
