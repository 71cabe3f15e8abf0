//! The command surface: each operation asked for with a flat list of named
//! texts, as a user interface hands them over. A name that is missing stands
//! for the empty text; a number that is missing or is no number stands for
//! its default.

use crate::api::{
    cancel_prediction_request, create_prediction_request, end_prediction_request,
    prediction_cancellation, prediction_creation, prediction_resolution, predictions_lookup,
    recent_predictions_request, refresh_request, refresh_tokens, user_lookup, user_request,
};
use crate::call::{ApiCall, CallView};
use crate::credentials::{Credentials, CredentialsView};
use crate::json::{json_string_list, parse_string_list};
use crate::model::{
    outcome_titles, Outcome, PredictionView, TwitchPrediction, DEFAULT_PREDICTION_WINDOW,
};
use crate::wire::{pairs_view, HttpRequest, Pair};
use vstd::prelude::*;

verus! {

/// How many predictions are fetched where no amount is given.
pub const DEFAULT_AMOUNT: u32 = 1;

/// Whether a character is one of the ten decimal digits.
pub open spec fn is_digit(c: char) -> bool {
    0x30 <= c as u32 <= 0x39
}

/// The number that a decimal digit stands for.
pub open spec fn digit_value(c: char) -> nat {
    (c as u32 - 0x30) as nat
}

/// Whether a text is made of decimal digits alone.
pub open spec fn all_digits(s: Seq<char>) -> bool {
    forall|i: int| 0 <= i < s.len() ==> is_digit(#[trigger] s[i])
}

/// The number that a text of decimal digits stands for.
pub open spec fn decimal_value(s: Seq<char>) -> nat
    decreases s.len(),
{
    if s.len() == 0 {
        0
    } else {
        decimal_value(s.drop_last()) * 10 + digit_value(s.last())
    }
}

/// A text without the plus sign that may stand before a number.
pub open spec fn without_sign(s: Seq<char>) -> Seq<char> {
    if s.len() > 0 && s[0] == '+' {
        s.drop_first()
    } else {
        s
    }
}

/// The number that a text stands for: an optional plus sign and then one or
/// more decimal digits, and nothing else, whose value fits in 32 bits.
pub open spec fn parsed_u32(s: Seq<char>) -> Option<u32> {
    let digits = without_sign(s);
    if digits.len() > 0 && all_digits(digits) && decimal_value(digits) <= u32::MAX {
        Some(decimal_value(digits) as u32)
    } else {
        None
    }
}

/// A text of digits stands for no less than any of its beginnings.
pub proof fn lemma_decimal_value_grows(s: Seq<char>, k: int)
    requires
        0 <= k <= s.len(),
    ensures
        decimal_value(s.take(k)) <= decimal_value(s),
    decreases s.len() - k,
{
    if k == s.len() {
        assert(s.take(k) =~= s);
    } else {
        assert(s.drop_last().take(k) =~= s.take(k));
        lemma_decimal_value_grows(s.drop_last(), k);
    }
}

/// Reads a number from a text: an optional plus sign and then one or more
/// decimal digits, and nothing else. There is no number where the text is
/// otherwise, or where its value does not fit in 32 bits.
pub fn parse_u32(text: &str) -> (r: Option<u32>)
    ensures
        r == parsed_u32(text@),
{
    let n = text.unicode_len();
    if n == 0 {
        return None;
    }
    let start: usize = if text.get_char(0) == '+' {
        1
    } else {
        0
    };
    if start == n {
        return None;
    }
    let ghost digits = without_sign(text@);
    assert(digits =~= text@.skip(start as int));
    let mut acc: u64 = 0;
    let mut i: usize = start;
    while i < n
        invariant
            start <= i <= n,
            n == text@.len(),
            digits == text@.skip(start as int),
            digits == without_sign(text@),
            digits.len() > 0,
            all_digits(digits.take(i - start)),
            acc == decimal_value(digits.take(i - start)),
            acc <= u32::MAX,
        decreases n - i,
    {
        let c = text.get_char(i);
        let ghost before = digits.take(i - start);
        let ghost after = digits.take(i - start + 1);
        assert(after.drop_last() =~= before);
        assert(after.last() == c);
        if !('0' <= c && c <= '9') {
            assert(!is_digit(digits[i - start]));
            return None;
        }
        let d: u64 = (c as u32 - '0' as u32) as u64;
        acc = acc * 10 + d;
        assert(acc == decimal_value(after));
        if acc > u32::MAX as u64 {
            proof {
                lemma_decimal_value_grows(digits, i - start + 1);
            }
            return None;
        }
        assert forall|k: int| 0 <= k < after.len() implies is_digit(#[trigger] after[k]) by {
            if k < before.len() {
                assert(after[k] == before[k]);
            }
        }
        i += 1;
    }
    assert(digits.take(i - start) =~= digits);
    Some(acc as u32)
}

/// The value that a list of named texts holds under a name: that of the last
/// entry with the name, if there is one.
pub open spec fn value_of(entries: Seq<(Seq<char>, Seq<char>)>, name: Seq<char>) -> Option<
    Seq<char>,
>
    decreases entries.len(),
{
    if entries.len() == 0 {
        None
    } else if entries.last().0 == name {
        Some(entries.last().1)
    } else {
        value_of(entries.drop_last(), name)
    }
}

/// The text under a name, or the empty text where there is none.
pub open spec fn text_of(entries: Seq<(Seq<char>, Seq<char>)>, name: Seq<char>) -> Seq<char> {
    match value_of(entries, name) {
        Some(value) => value,
        None => Seq::empty(),
    }
}

/// The number under a name, or `default` where there is none or where what
/// is there is no number.
pub open spec fn number_of(
    entries: Seq<(Seq<char>, Seq<char>)>,
    name: Seq<char>,
    default: u32,
) -> u32 {
    match value_of(entries, name) {
        Some(value) => match parsed_u32(value) {
            Some(number) => number,
            None => default,
        },
        None => default,
    }
}

/// The titles that a text lists: those of the JSON array of strings that it
/// is, or none where it is no such array.
pub open spec fn titles_in(text: Seq<char>) -> Seq<Seq<char>> {
    match json_string_list(text) {
        Some(titles) => titles,
        None => Seq::empty(),
    }
}

/// The prediction that a list of named texts describes. The window is 90
/// seconds where none is given.
pub open spec fn prediction_of(entries: Seq<(Seq<char>, Seq<char>)>) -> PredictionView {
    PredictionView {
        title: text_of(entries, "title"@),
        outcomes: titles_in(text_of(entries, "outcomes"@)),
        prediction_window: number_of(entries, "prediction_window"@, DEFAULT_PREDICTION_WINDOW),
        broadcaster_id: text_of(entries, "broadcaster_id"@),
    }
}

/// The credentials that a list of named texts carries: the client under
/// `client_id`, the access token under `token`, and, where they are given,
/// the secret under `client_secret` and the refresh token under
/// `refresh_token`.
pub open spec fn credentials_of(entries: Seq<(Seq<char>, Seq<char>)>) -> CredentialsView {
    CredentialsView {
        client_id: text_of(entries, "client_id"@),
        client_secret: value_of(entries, "client_secret"@),
        access_token: text_of(entries, "token"@),
        refresh_token: value_of(entries, "refresh_token"@),
    }
}

/// The creation of a prediction that a list of named texts describes, apart
/// from the access token.
pub open spec fn create_prediction_call_of(entries: Seq<(Seq<char>, Seq<char>)>) -> CallView {
    CallView::CreatePrediction {
        client_id: text_of(entries, "client_id"@),
        prediction: prediction_of(entries),
    }
}

/// The fetch of a user's data that a list of named texts describes, apart
/// from the access token.
pub open spec fn user_data_call_of(entries: Seq<(Seq<char>, Seq<char>)>) -> CallView {
    CallView::FetchUser {
        client_id: text_of(entries, "client_id"@),
        username: text_of(entries, "username"@),
    }
}

/// The titles of a list of texts as they stand, or none where there is no
/// list.
pub open spec fn listed_titles(titles: Option<Vec<String>>) -> Seq<Seq<char>> {
    match titles {
        Some(list) => list@.map_values(|s: String| s@),
        None => Seq::empty(),
    }
}

/// One outcome for each title, in order; none where there is no list.
pub fn outcomes_from(titles: Option<Vec<String>>) -> (r: Vec<Outcome>)
    ensures
        outcome_titles(r@) == listed_titles(titles),
{
    let mut outcomes: Vec<Outcome> = Vec::new();
    match titles {
        None => {
            assert(outcome_titles(outcomes@) =~= listed_titles(titles));
        },
        Some(list) => {
            let mut i: usize = 0;
            while i < list.len()
                invariant
                    i <= list.len(),
                    outcomes.len() == i,
                    forall|k: int| 0 <= k < i ==> (#[trigger] outcomes[k]).title@ == list[k]@,
                decreases list.len() - i,
            {
                outcomes.push(Outcome { title: list[i].clone() });
                i += 1;
            }
            assert(outcome_titles(outcomes@) =~= listed_titles(titles));
        },
    }
    outcomes
}

/// The named texts that a command is asked with.
#[derive(Clone, Debug, PartialEq, Eq)]
pub struct CommandArgs {
    pub entries: Vec<Pair>,
}

impl View for CommandArgs {
    type V = Seq<(Seq<char>, Seq<char>)>;

    open spec fn view(&self) -> Seq<(Seq<char>, Seq<char>)> {
        pairs_view(self.entries@)
    }
}

impl CommandArgs {
    /// No named texts.
    pub fn new() -> (r: CommandArgs)
        ensures
            r@ == Seq::<(Seq<char>, Seq<char>)>::empty(),
    {
        let r = CommandArgs { entries: Vec::new() };
        assert(r@ =~= Seq::<(Seq<char>, Seq<char>)>::empty());
        r
    }

    /// Puts `value` under `name`, in place of what was there.
    pub fn set(&mut self, name: &str, value: &str)
        ensures
            final(self)@ == old(self)@.push((name@, value@)),
            value_of(final(self)@, name@) == Some(value@),
            forall|other: Seq<char>|
                other != name@ ==> value_of(final(self)@, other) == value_of(old(self)@, other),
    {
        self.entries.push(Pair::new(name, value));
        assert(self@ =~= old(self)@.push((name@, value@)));
        assert(self@.drop_last() =~= old(self)@);
    }

    /// The text under `name`, if there is one.
    pub fn get(&self, name: &str) -> (r: Option<&str>)
        ensures
            match r {
                Some(value) => value_of(self@, name@) == Some(value@),
                None => value_of(self@, name@) is None,
            },
    {
        let wanted = String::from_str(name);
        let mut i: usize = self.entries.len();
        assert(self@.take(i as int) =~= self@);
        while i > 0
            invariant
                i <= self.entries.len(),
                wanted@ == name@,
                value_of(self@, name@) == value_of(self@.take(i as int), name@),
            decreases i,
        {
            i -= 1;
            let ghost upto = self@.take(i + 1);
            assert(upto.last() == self.entries[i as int]@);
            assert(upto.drop_last() =~= self@.take(i as int));
            if self.entries[i].name == wanted {
                return Some(self.entries[i].value.as_str());
            }
        }
        None
    }

    /// The text under `name`, or the empty text where there is none.
    pub fn text(&self, name: &str) -> (r: &str)
        ensures
            r@ == text_of(self@, name@),
    {
        match self.get(name) {
            Some(value) => value,
            None => {
                let empty = "";
                proof {
                    reveal_strlit("");
                }
                assert(empty@ =~= Seq::<char>::empty());
                empty
            },
        }
    }

    /// The number under `name`, or `default` where there is none or where
    /// what is there is no number.
    pub fn number(&self, name: &str, default: u32) -> (r: u32)
        ensures
            r == number_of(self@, name@, default),
    {
        match self.get(name) {
            Some(value) => match parse_u32(value) {
                Some(number) => number,
                None => default,
            },
            None => default,
        }
    }

    /// The prediction that these texts describe: its title under `title`,
    /// its broadcaster under `broadcaster_id`, its outcomes as a JSON array
    /// of titles under `outcomes`, and its window under `prediction_window`,
    /// 90 seconds where none is given.
    pub fn prediction(&self) -> (r: TwitchPrediction)
        ensures
            r@ == prediction_of(self@),
    {
        let listed = parse_string_list(self.text("outcomes"));
        TwitchPrediction {
            title: String::from_str(self.text("title")),
            outcomes: outcomes_from(listed),
            prediction_window: self.number("prediction_window", DEFAULT_PREDICTION_WINDOW),
            broadcaster_id: String::from_str(self.text("broadcaster_id")),
        }
    }

    /// The text under `name` as a value of its own, if there is one.
    pub fn owned(&self, name: &str) -> (r: Option<String>)
        ensures
            match r {
                Some(value) => value_of(self@, name@) == Some(value@),
                None => value_of(self@, name@) is None,
            },
    {
        match self.get(name) {
            Some(value) => Some(String::from_str(value)),
            None => None,
        }
    }

    /// The credentials that these texts carry: the client under `client_id`
    /// and the access token under `token`, and, where they are given, the
    /// secret under `client_secret` and the refresh token under
    /// `refresh_token`. Where the last two are given, a call with these
    /// credentials can refresh its token.
    pub fn credentials(&self) -> (r: Credentials)
        ensures
            r@ == credentials_of(self@),
    {
        let secret = self.owned("client_secret");
        let refresh = self.owned("refresh_token");
        let r = Credentials::new(
            String::from_str(self.text("client_id")),
            secret,
            String::from_str(self.text("token")),
            refresh,
        );
        assert(r@.client_secret == value_of(self@, "client_secret"@));
        assert(r@.refresh_token == value_of(self@, "refresh_token"@));
        r
    }

    /// How many predictions are asked for: the number under `amount`, one
    /// where none is given.
    pub fn amount(&self) -> (r: u32)
        ensures
            r == number_of(self@, "amount"@, DEFAULT_AMOUNT),
    {
        self.number("amount", DEFAULT_AMOUNT)
    }
}

/// Builds the request of the command that creates a prediction, from the
/// texts under `client_id`, `token`, `title`, `broadcaster_id`, `outcomes`
/// and `prediction_window`.
pub fn create_twitch_prediction_cmd(args: &CommandArgs) -> (r: HttpRequest)
    ensures
        r@ == create_prediction_request(
            text_of(args@, "client_id"@),
            text_of(args@, "token"@),
            prediction_of(args@),
        ),
{
    let prediction = args.prediction();
    prediction_creation(args.text("client_id"), args.text("token"), &prediction)
}

/// The creation of a prediction that these texts describe, as an operation
/// that can be asked for with any access token: with the one under `token`
/// first, and with a new one where that one is refused.
pub fn create_twitch_prediction_call(args: &CommandArgs) -> (r: ApiCall)
    ensures
        r@ == create_prediction_call_of(args@),
{
    ApiCall::CreatePrediction {
        client_id: String::from_str(args.text("client_id")),
        prediction: args.prediction(),
    }
}

/// The fetch of a user's data that these texts describe, as an operation
/// that can be asked for with any access token.
pub fn get_user_data_call(args: &CommandArgs) -> (r: ApiCall)
    ensures
        r@ == user_data_call_of(args@),
{
    ApiCall::FetchUser {
        client_id: String::from_str(args.text("client_id")),
        username: String::from_str(args.text("username")),
    }
}

/// Builds the request of the command that fetches a user's data, from the
/// texts under `client_id`, `token` and `username`.
pub fn get_user_data_cmd(args: &CommandArgs) -> (r: HttpRequest)
    ensures
        r@ == user_request(
            text_of(args@, "client_id"@),
            text_of(args@, "token"@),
            text_of(args@, "username"@),
        ),
{
    user_lookup(args.text("client_id"), args.text("token"), args.text("username"))
}

/// Builds the request of the command that refreshes the tokens, from the
/// texts under `client_id`, `client_secret` and `refresh_token`.
pub fn refresh_tokens_cmd(args: &CommandArgs) -> (r: HttpRequest)
    ensures
        r@ == refresh_request(
            text_of(args@, "client_id"@),
            text_of(args@, "client_secret"@),
            text_of(args@, "refresh_token"@),
        ),
{
    refresh_tokens(
        String::from_str(args.text("client_id")),
        String::from_str(args.text("client_secret")),
        String::from_str(args.text("refresh_token")),
    )
}

/// Builds the request of the command that fetches the recent predictions,
/// from the texts under `client_id`, `token` and `broadcaster_id`. How many
/// are wanted is [`CommandArgs::amount`], and bears on the reply alone.
pub fn get_last_predictions_cmd(args: &CommandArgs) -> (r: HttpRequest)
    ensures
        r@ == recent_predictions_request(
            text_of(args@, "client_id"@),
            text_of(args@, "token"@),
            text_of(args@, "broadcaster_id"@),
        ),
{
    predictions_lookup(args.text("client_id"), args.text("token"), args.text("broadcaster_id"))
}

/// Builds the request of the command that cancels a prediction, from the
/// texts under `client_id`, `token`, `broadcaster_id` and `id`.
pub fn cancel_prediction_cmd(args: &CommandArgs) -> (r: HttpRequest)
    ensures
        r@ == cancel_prediction_request(
            text_of(args@, "client_id"@),
            text_of(args@, "token"@),
            text_of(args@, "broadcaster_id"@),
            text_of(args@, "id"@),
        ),
{
    prediction_cancellation(
        args.text("client_id"),
        args.text("token"),
        args.text("broadcaster_id"),
        args.text("id"),
    )
}

/// Builds the request of the command that resolves a prediction, from the
/// texts under `client_id`, `token`, `broadcaster_id`, `id` and
/// `winning_outcome_id`.
pub fn end_prediction_cmd(args: &CommandArgs) -> (r: HttpRequest)
    ensures
        r@ == end_prediction_request(
            text_of(args@, "client_id"@),
            text_of(args@, "token"@),
            text_of(args@, "broadcaster_id"@),
            text_of(args@, "id"@),
            text_of(args@, "winning_outcome_id"@),
        ),
{
    prediction_resolution(
        args.text("client_id"),
        args.text("token"),
        args.text("broadcaster_id"),
        args.text("id"),
        args.text("winning_outcome_id"),
    )
}

/// A prediction for which no window is given, or one that is no number, has
/// a window of 90 seconds; no amount, or one that is no number, is an amount
/// of one.
pub proof fn law_defaults(entries: Seq<(Seq<char>, Seq<char>)>, text: Seq<char>)
    ensures
        value_of(entries, "prediction_window"@) is None ==> prediction_of(entries).prediction_window
            == 90,
        value_of(entries, "prediction_window"@) == Some(text) ==> prediction_of(
            entries,
        ).prediction_window == (match parsed_u32(text) {
            Some(seconds) => seconds,
            None => 90,
        }),
        value_of(entries, "amount"@) is None ==> number_of(entries, "amount"@, DEFAULT_AMOUNT) == 1,
        value_of(entries, "amount"@) == Some(text) ==> number_of(entries, "amount"@, DEFAULT_AMOUNT)
            == (match parsed_u32(text) {
            Some(amount) => amount,
            None => 1,
        }),
{
}

/// The first request of a call that can refresh its token is the request of
/// the command that sends once, and the call can refresh its token exactly
/// where a secret and a refresh token are given.
pub proof fn law_a_refreshing_command_begins_as_the_command(entries: Seq<(Seq<char>, Seq<char>)>)
    ensures
        create_prediction_call_of(entries).request(credentials_of(entries).access_token)
            == create_prediction_request(
            text_of(entries, "client_id"@),
            text_of(entries, "token"@),
            prediction_of(entries),
        ),
        user_data_call_of(entries).request(credentials_of(entries).access_token) == user_request(
            text_of(entries, "client_id"@),
            text_of(entries, "token"@),
            text_of(entries, "username"@),
        ),
        credentials_of(entries).refresh_request() is Some <==> value_of(
            entries,
            "client_secret"@,
        ) is Some && value_of(entries, "refresh_token"@) is Some,
{
}

} // verus!
