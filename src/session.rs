use vstd::prelude::*;
use vstd::string::*;

use crate::client::{report_of, FetchError, WeatherApp, WeatherRecord};
use crate::style::{style_of, StyledText};
use crate::text::{decimal, push_decimal};

verus! {

/// The characters that a line is trimmed of: Unicode White_Space.
pub open spec fn is_blank(c: char) -> bool {
    ||| ('\u{9}' <= c && c <= '\u{d}')
    ||| c == ' '
    ||| c == '\u{85}'
    ||| c == '\u{a0}'
    ||| c == '\u{1680}'
    ||| ('\u{2000}' <= c && c <= '\u{200a}')
    ||| c == '\u{2028}'
    ||| c == '\u{2029}'
    ||| c == '\u{202f}'
    ||| c == '\u{205f}'
    ||| c == '\u{3000}'
}

fn blank(c: char) -> (r: bool)
    ensures
        r == is_blank(c),
{
    ('\u{9}' <= c && c <= '\u{d}') || c == ' ' || c == '\u{85}' || c == '\u{a0}' || c
        == '\u{1680}' || ('\u{2000}' <= c && c <= '\u{200a}') || c == '\u{2028}' || c
        == '\u{2029}' || c == '\u{202f}' || c == '\u{205f}' || c == '\u{3000}'
}

/// Three characters that spell "yes" in any mix of cases.
pub open spec fn is_yes_word(w: Seq<char>) -> bool {
    &&& w.len() == 3
    &&& (w[0] == 'y' || w[0] == 'Y')
    &&& (w[1] == 'e' || w[1] == 'E')
    &&& (w[2] == 's' || w[2] == 'S')
}

/// The answer holds a "yes" word at position `i` with only blanks around it.
pub open spec fn yes_at(answer: Seq<char>, i: int) -> bool {
    &&& 0 <= i && i + 3 <= answer.len()
    &&& forall|k: int| 0 <= k < i ==> is_blank(#[trigger] answer[k])
    &&& forall|k: int| i + 3 <= k < answer.len() ==> is_blank(#[trigger] answer[k])
    &&& is_yes_word(answer.subrange(i, i + 3))
}

/// An answer says yes when, with the blanks at both ends removed, it is
/// "yes" in any mix of cases.
pub open spec fn is_affirmative(answer: Seq<char>) -> bool {
    exists|i: int| #[trigger] yes_at(answer, i)
}

/// Whether the answer to the continuation prompt asks for another query.
pub fn should_continue(answer: &str) -> (r: bool)
    ensures
        r == is_affirmative(answer@),
{
    let n = answer.unicode_len();
    let mut i: usize = 0;
    while i < n && blank(answer.get_char(i))
        invariant
            n == answer@.len(),
            i <= n,
            forall|k: int| 0 <= k < i ==> is_blank(#[trigger] answer@[k]),
        decreases n - i,
    {
        i = i + 1;
    }
    let mut j: usize = n;
    while j > i && blank(answer.get_char(j - 1))
        invariant
            n == answer@.len(),
            i <= j <= n,
            forall|k: int| j <= k < n ==> is_blank(#[trigger] answer@[k]),
        decreases j,
    {
        j = j - 1;
    }
    // answer@[i] and answer@[j - 1] are not blank when i < j
    if j - i != 3 {
        proof {
            if is_affirmative(answer@) {
                let w = choose|w: int| yes_at(answer@, w);
                assert(answer@[w] == answer@.subrange(w, w + 3)[0]);
                assert(answer@[w + 2] == answer@.subrange(w, w + 3)[2]);
                if i < w {
                    assert(i < n);
                    assert(is_blank(answer@[i as int]));
                }
                assert(!is_blank(answer@[w]));
                assert(i == w);
                assert(!is_blank(answer@[w + 2]));
                assert(j == w + 3);
            }
        }
        return false;
    }
    let c0 = answer.get_char(i);
    let c1 = answer.get_char(i + 1);
    let c2 = answer.get_char(i + 2);
    let r = (c0 == 'y' || c0 == 'Y') && (c1 == 'e' || c1 == 'E') && (c2 == 's' || c2 == 'S');
    proof {
        let s = answer@.subrange(i as int, i + 3);
        assert(s[0] == c0 && s[1] == c1 && s[2] == c2);
        if r {
            assert(is_yes_word(s));
            assert(yes_at(answer@, i as int));
        }
        if is_affirmative(answer@) {
            let w = choose|w: int| yes_at(answer@, w);
            assert(answer@[w] == answer@.subrange(w, w + 3)[0]);
            assert(!is_blank(answer@[w]));
            if i < w {
                assert(is_blank(answer@[i as int]));
            }
            if w < i {
                assert(is_blank(answer@[w]));
            }
            assert(i == w);
        }
    }
    r
}

/// The first line of every failure report.
pub open spec fn error_prefix() -> Seq<char> {
    "Error retrieving weather information: "@
}

/// What is said of a failed query after the common prefix.
pub open spec fn error_detail(e: FetchError) -> Seq<char> {
    match e {
        FetchError::Network(d) => d@,
        FetchError::Provider(status) => "the provider answered with status "@ + decimal(
            status as nat,
        ),
        FetchError::Decode(d) => d@,
        FetchError::NoDescription => "the answer holds no weather description"@,
    }
}

/// The line printed for a failed query.
pub fn error_message(e: &FetchError) -> (r: String)
    ensures
        r@ == error_prefix() + error_detail(*e),
{
    let mut out = String::from_str("Error retrieving weather information: ");
    match e {
        FetchError::Network(d) => out.append(d.as_str()),
        FetchError::Provider(status) => {
            out.append("the provider answered with status ");
            push_decimal(&mut out, *status as u64);
        },
        FetchError::Decode(d) => out.append(d.as_str()),
        FetchError::NoDescription => out.append("the answer holds no weather description"),
    }
    proof {
        assert(out@ =~= error_prefix() + error_detail(*e));
    }
    out
}

/// Where the interaction stands.
#[derive(Clone, Copy, Debug, PartialEq, Eq, Structural)]
pub enum Stage {
    /// Reading a city and a country, then querying.
    Querying,
    /// Asking whether to look up another place.
    Confirming,
    /// Done; nothing more is read.
    Terminated,
}

/// What happened outside since the last step.
#[derive(Debug, PartialEq, Eq)]
pub enum Event {
    Fetched(WeatherRecord),
    FetchFailed(FetchError),
    Answered(String),
}

/// What to do next on the terminal.
#[derive(Debug, PartialEq, Eq)]
pub enum Action {
    /// Print the report in its style.
    Report(StyledText),
    /// Print the error line.
    Failure(String),
    /// Start over with a new query.
    Prompt,
    /// Say goodbye.
    Farewell,
    /// The event does not fit the stage; nothing to do.
    Ignore,
}

/// One step of the interaction: a query's outcome is shown, whether it
/// succeeded or not, and the user is then asked whether to go on; the
/// answer decides between another query and the end.
pub fn step(app: &WeatherApp, stage: Stage, event: Event) -> (r: (Stage, Action))
    ensures
        stage == Stage::Querying && event is Fetched ==> {
            &&& r.0 == Stage::Confirming
            &&& r.1 is Report
            &&& r.1->Report_0.text@ == report_of(event->Fetched_0)
            &&& r.1->Report_0.style == style_of(event->Fetched_0.description@)
        },
        stage == Stage::Querying && event is FetchFailed ==> {
            &&& r.0 == Stage::Confirming
            &&& r.1 is Failure
            &&& r.1->Failure_0@ == error_prefix() + error_detail(event->FetchFailed_0)
        },
        stage == Stage::Confirming && event is Answered ==> {
            if is_affirmative(event->Answered_0@) {
                r.0 == Stage::Querying && r.1 is Prompt
            } else {
                r.0 == Stage::Terminated && r.1 is Farewell
            }
        },
        (stage == Stage::Querying && event is Answered) || (stage == Stage::Confirming
            && !(event is Answered)) || stage == Stage::Terminated ==> r.0 == stage
            && r.1 is Ignore,
{
    match (stage, event) {
        (Stage::Querying, Event::Fetched(info)) => {
            (Stage::Confirming, Action::Report(app.render_weather_info(&info)))
        },
        (Stage::Querying, Event::FetchFailed(e)) => {
            (Stage::Confirming, Action::Failure(error_message(&e)))
        },
        (Stage::Confirming, Event::Answered(answer)) => {
            if should_continue(answer.as_str()) {
                (Stage::Querying, Action::Prompt)
            } else {
                (Stage::Terminated, Action::Farewell)
            }
        },
        (s, _) => (s, Action::Ignore),
    }
}

} // verus!
