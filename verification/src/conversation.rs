//! The conversation coordinator: a single-threaded, per-session finite-state
//! machine that walks the user from origin through destination and date to
//! a train, and renders what it finds. Every step is a pure transition from
//! a state and an event to the next state, zero or more render
//! instructions, and at most one action for the driver (a query to run, or
//! a subscription to save). The driver performs the action and hands its
//! result back as the next event; a result event arriving in any other
//! state is a stale answer to a cancelled flow and is discarded.
//!
//! An index the user picks resolves only against the candidate list held
//! in the current state, and the code a later query embeds is the exact
//! code offered, never re-derived from display text. Every branch that
//! fails to advance resets to `Idle`; malformed user input (a bad choice,
//! an unparsable date) is reported and leaves the state for retry, except
//! that a bad train index resets the whole flow.

use vstd::prelude::*;
use vstd::string::StringExecFns;

use crate::date::{format_date, format_date_spec, parse_date, parse_date_spec};
use crate::errors::Failure;
use crate::reducer::{reduce, reduce_spec, CompartmentBlock};
use crate::rzd::{
    compartment_seats_spec, count_compartment_seats, GetRZDPointCodes, GetRZDTrains,
    GetRZDTrainsCarriagesResponse, GetRZDTrainsResponse,
};
use crate::tasks::{encode_task, task_fields, TaskRecord};
use crate::text::{dec_digits, format_u64, join_spec, parse_u32, parse_u32_spec, split_spec};

verus! {

/// The handle of one offered train: everything the carriage query needs,
/// carried verbatim from the listing and the route that produced it.
#[derive(Debug, PartialEq, Eq)]
pub struct Train {
    pub code0: String,
    pub code1: String,
    pub dt0: String,
    pub time0: String,
    pub tnum0: String,
}

impl Clone for Train {
    fn clone(&self) -> (r: Self)
        ensures
            r == *self,
    {
        Train {
            code0: self.code0.clone(),
            code1: self.code1.clone(),
            dt0: self.dt0.clone(),
            time0: self.time0.clone(),
            tnum0: self.tnum0.clone(),
        }
    }
}

/// Where a conversation stands. Candidate and train lists live in the
/// state itself, so a chosen index can only ever resolve against the list
/// that is currently offered.
#[derive(Debug, PartialEq, Eq, Clone)]
pub enum State {
    Idle,
    AwaitingOrigin,
    AwaitingOriginChoice { candidates: Vec<GetRZDPointCodes> },
    AwaitingDestination { origin: String },
    AwaitingDestinationChoice { origin: String, candidates: Vec<GetRZDPointCodes> },
    AwaitingDate { origin: String, destination: String },
    AwaitingTrainChoice { trains: Vec<Train> },
}

impl Default for State {
    /// A session that has not spoken yet is idle.
    fn default() -> (r: Self)
        ensures
            r is Idle,
    {
        State::Idle
    }
}

/// What can happen to a conversation: the user speaks, clicks or cancels,
/// or a query the coordinator asked for comes back. Result events echo the
/// request context (the queried date, the chosen train) so the coordinator
/// needs no hidden state.
#[derive(Debug)]
pub enum Event {
    Start,
    Cancel,
    UserText { text: String },
    UserChoice { token: String },
    PointsResult { result: Result<Vec<GetRZDPointCodes>, Failure> },
    ScheduleResult { date: String, result: Result<GetRZDTrainsResponse, Failure> },
    CarriagesResult { train: Train, result: Result<GetRZDTrainsCarriagesResponse, Failure> },
}

/// One selectable button: a label to show and the token handed back when
/// it is clicked.
#[derive(Debug, PartialEq, Eq)]
pub struct ChoiceOption {
    pub label: String,
    pub token: String,
}

/// One line of the train listing shown to the user.
#[derive(Debug, PartialEq, Eq)]
pub struct TrainSummary {
    pub number: String,
    pub date: String,
    pub time: String,
    pub free_seats: u64,
}

#[derive(Debug, PartialEq, Eq, Structural, Clone, Copy)]
pub enum PointRole {
    Origin,
    Destination,
}

/// What the transport should render. The instructions carry structured
/// values; turning them into localized text is the transport's business.
#[derive(Debug)]
pub enum RenderInstruction {
    /// Ask for the origin point's name.
    PromptOrigin,
    /// Ask for the destination point's name.
    PromptDestination,
    /// Ask for the travel date.
    PromptDate,
    /// Offer the point candidates, one button each, tokens `"1"`..`"N"`.
    OfferPoints { role: PointRole, options: Vec<ChoiceOption> },
    /// Show the filtered train listing and offer to keep watching the day.
    ShowTrains { summaries: Vec<TrainSummary>, day_token: String },
    /// Show the compartment blocks found (possibly none) and offer to keep
    /// watching the train.
    ShowCompartments { blocks: Vec<CompartmentBlock>, train_token: String },
    /// A query succeeded and found nothing to offer.
    NothingFound,
    /// A query failed; its failure renders as plain text.
    ReportFailure { failure: Failure },
    /// The chosen option does not name a current candidate; the state is
    /// kept for another try.
    InvalidChoice,
    /// The text does not parse as a date; the state is kept.
    InvalidDate,
    /// The text does not name a listed train; the flow resets.
    InvalidIndex,
    /// The user cancelled; the flow resets.
    Canceled,
}

/// What the driver must do after a transition.
#[derive(Debug)]
pub enum Action {
    /// Resolve a point name to candidate codes.
    ResolvePoints { query: String },
    /// Query the timetable of a route on a day (the date already in query
    /// form).
    RunSchedule { origin: String, destination: String, date: String },
    /// Query the carriages of one train.
    RunCarriages { train: Train },
    /// Persist a standing subscription.
    SaveTask { record: TaskRecord },
}

pub struct Transition {
    pub next: State,
    pub renders: Vec<RenderInstruction>,
    pub action: Option<Action>,
}

/// States that hold a list always hold a non-empty one: an empty candidate
/// or train list never waits for a choice.
pub open spec fn state_wf(s: State) -> bool {
    match s {
        State::AwaitingOriginChoice { candidates } => candidates@.len() > 0,
        State::AwaitingDestinationChoice { origin, candidates } => candidates@.len() > 0,
        State::AwaitingTrainChoice { trains } => trains@.len() > 0,
        _ => true,
    }
}

/// Nothing happens: the event does not concern this state.
pub open spec fn silent_stay(state: State, t: Transition) -> bool {
    t.next == state && t.renders@.len() == 0 && t.action is None
}

/// The state is kept and the user is told the choice was invalid.
pub open spec fn choice_nudge(state: State, t: Transition) -> bool {
    t.next == state && t.renders@.len() == 1 && t.renders@[0] is InvalidChoice && t.action is None
}

/// The flow resets and the failure renders.
pub open spec fn report_reset(f: Failure, t: Transition) -> bool {
    t.next is Idle && t.renders@.len() == 1 && (match t.renders@[0] {
        RenderInstruction::ReportFailure { failure } => failure == f,
        _ => false,
    }) && t.action is None
}

/// The flow resets with a nothing-found report.
pub open spec fn nothing_found_reset(t: Transition) -> bool {
    t.next is Idle && t.renders@.len() == 1 && t.renders@[0] is NothingFound && t.action is None
}

/// The text is handed to the point resolver; the state waits as it was.
pub open spec fn resolve_step(state: State, text: String, t: Transition) -> bool {
    t.next == state && t.renders@.len() == 0 && (match t.action {
        Some(Action::ResolvePoints { query }) => query == text,
        _ => false,
    })
}

/// A date was awaited: text that parses becomes a schedule query for
/// exactly the held route and the formatted date; anything else is
/// reported and the state is kept for retry.
pub open spec fn date_text_step(
    origin: String,
    destination: String,
    text: String,
    t: Transition,
) -> bool {
    match parse_date_spec(text@) {
        Some(d) => {
            &&& t.next == State::AwaitingDate { origin, destination }
            &&& t.renders@.len() == 0
            &&& match t.action {
                Some(Action::RunSchedule { origin: o, destination: dd, date }) => o == origin && dd
                    == destination && date@ == format_date_spec(d),
                _ => false,
            }
        },
        None => {
            &&& t.next == State::AwaitingDate { origin, destination }
            &&& t.renders@.len() == 1 && t.renders@[0] is InvalidDate
            &&& t.action is None
        },
    }
}

/// A train index was awaited: an index into the offered list (one-based)
/// starts the carriage query for exactly that train; any other text, and
/// any index beyond the list — whatever the list's length — resets the
/// flow with an error.
pub open spec fn train_index_step(trains: Vec<Train>, text: String, t: Transition) -> bool {
    match parse_u32_spec(text@) {
        Some(i) => {
            if 1 <= i && i as int <= trains@.len() {
                &&& t.next == State::AwaitingTrainChoice { trains }
                &&& t.renders@.len() == 0
                &&& match t.action {
                    Some(Action::RunCarriages { train }) => train == trains@[i as int - 1],
                    _ => false,
                }
            } else {
                invalid_index_reset(t)
            }
        },
        None => invalid_index_reset(t),
    }
}

pub open spec fn invalid_index_reset(t: Transition) -> bool {
    t.next is Idle && t.renders@.len() == 1 && t.renders@[0] is InvalidIndex && t.action is None
}

/// The offered buttons mirror the candidates in their returned order:
/// the label is the candidate's display name, the token its one-based
/// position.
pub open spec fn options_for(options: Seq<ChoiceOption>, candidates: Seq<GetRZDPointCodes>) -> bool {
    options.len() == candidates.len() && forall|i: int|
        0 <= i < options.len() ==> (#[trigger] options[i]).label@ == candidates[i].name@
            && options[i].token@ == dec_digits((i + 1) as nat)
}

/// The token offered for a candidate names exactly that candidate: it
/// parses back to its own one-based position, so clicking it can only
/// select the candidate it was offered for. (Positions are nine decimal
/// digits at most; no real candidate list comes near that.)
pub proof fn lemma_offered_token_selects(
    options: Seq<ChoiceOption>,
    candidates: Seq<GetRZDPointCodes>,
    i: int,
)
    requires
        options_for(options, candidates),
        0 <= i < options.len(),
        i + 1 < 1_000_000_000,
    ensures
        parse_u32_spec(options[i].token@) == Some((i + 1) as u32),
{
    crate::text::lemma_format_parse_round_trip((i + 1) as u32);
}

/// Candidates arrived for the awaited point: a non-empty list is offered
/// in order and held, as it was returned, in the next state; an empty list
/// or a failure resets with a report.
pub open spec fn points_arrival(
    role: PointRole,
    make_next: spec_fn(Vec<GetRZDPointCodes>) -> State,
    result: Result<Vec<GetRZDPointCodes>, Failure>,
    t: Transition,
) -> bool {
    match result {
        Err(f) => report_reset(f, t),
        Ok(cands) => {
            if cands@.len() == 0 {
                report_reset(Failure::NotFound, t)
            } else {
                &&& t.next == make_next(cands)
                &&& t.action is None
                &&& t.renders@.len() == 1
                &&& match t.renders@[0] {
                    RenderInstruction::OfferPoints { role: r, options } => r == role && options_for(
                        options@,
                        cands@,
                    ),
                    _ => false,
                }
            }
        },
    }
}

/// The trains of a timetable answer: the first route variant's list, or
/// nothing when the answer has no variant.
pub open spec fn schedule_list(resp: GetRZDTrainsResponse) -> Seq<GetRZDTrains> {
    if resp.tp@.len() > 0 {
        resp.tp@[0].list@
    } else {
        Seq::<GetRZDTrains>::empty()
    }
}

/// The listings that survive filtering: those with at least one free
/// compartment seat, in their returned order.
pub open spec fn filtered_trains(list: Seq<GetRZDTrains>) -> Seq<GetRZDTrains>
    decreases list.len(),
{
    if list.len() == 0 {
        Seq::<GetRZDTrains>::empty()
    } else {
        filtered_trains(list.drop_last()) + (if compartment_seats_spec(list.last().cars@) > 0 {
            seq![list.last()]
        } else {
            Seq::<GetRZDTrains>::empty()
        })
    }
}

/// The held train handles carry the exact codes that were queried and each
/// surviving listing's own number, date and time.
pub open spec fn trains_match(
    trains: Seq<Train>,
    filtered: Seq<GetRZDTrains>,
    origin: Seq<char>,
    destination: Seq<char>,
) -> bool {
    trains.len() == filtered.len() && forall|i: int|
        0 <= i < trains.len() ==> (#[trigger] trains[i]).code0@ == origin && trains[i].code1@
            == destination && trains[i].dt0@ == filtered[i].date0@ && trains[i].time0@
            == filtered[i].time0@ && trains[i].tnum0@ == filtered[i].number@
}

/// The shown summaries mirror the surviving listings in order, with their
/// compartment-seat totals.
pub open spec fn summaries_match(sums: Seq<TrainSummary>, filtered: Seq<GetRZDTrains>) -> bool {
    sums.len() == filtered.len() && forall|i: int|
        0 <= i < sums.len() ==> (#[trigger] sums[i]).number@ == filtered[i].number@
            && sums[i].date@ == filtered[i].date0@ && sums[i].time@ == filtered[i].time0@
            && sums[i].free_seats == compartment_seats_spec(filtered[i].cars@)
}

/// A timetable answer arrived for the awaited route: listings whose
/// compartment-seat total is zero are dropped before display, so the shown
/// indices are dense and always map into the held list. An answer in which
/// nothing survives resets with a nothing-found report — never a wait for
/// a choice from an empty list. A failure resets with its report.
pub open spec fn schedule_arrival(
    origin: String,
    destination: String,
    date: String,
    result: Result<GetRZDTrainsResponse, Failure>,
    t: Transition,
) -> bool {
    match result {
        Err(f) => report_reset(f, t),
        Ok(resp) => {
            let filtered = filtered_trains(schedule_list(resp));
            if filtered.len() == 0 {
                nothing_found_reset(t)
            } else {
                &&& match t.next {
                    State::AwaitingTrainChoice { trains } => trains_match(
                        trains@,
                        filtered,
                        origin@,
                        destination@,
                    ),
                    _ => false,
                }
                &&& t.action is None
                &&& t.renders@.len() == 1
                &&& match t.renders@[0] {
                    RenderInstruction::ShowTrains { summaries, day_token } => summaries_match(
                        summaries@,
                        filtered,
                    ) && day_token@ == join_spec(seq![origin@, destination@, date@], '_'),
                    _ => false,
                }
            }
        },
    }
}

/// The cars of a carriage answer: the first route variant's, or nothing.
pub open spec fn carriage_cars(resp: GetRZDTrainsCarriagesResponse) -> Seq<
    crate::rzd::GetRZDTrainsCarriagesCars,
> {
    if resp.lst@.len() > 0 {
        resp.lst@[0].cars@
    } else {
        Seq::<crate::rzd::GetRZDTrainsCarriagesCars>::empty()
    }
}

/// A carriage answer arrived for the chosen train: its compartment blocks
/// render together with a token to keep watching exactly that train, and
/// the flow resets — a success is terminal. A failure resets with its
/// report.
pub open spec fn carriages_arrival(
    train: Train,
    result: Result<GetRZDTrainsCarriagesResponse, Failure>,
    t: Transition,
) -> bool {
    match result {
        Err(f) => report_reset(f, t),
        Ok(resp) => {
            &&& t.next is Idle
            &&& t.action is None
            &&& t.renders@.len() == 1
            &&& match t.renders@[0] {
                RenderInstruction::ShowCompartments { blocks, train_token } => blocks@
                    == reduce_spec(carriage_cars(resp)) && train_token@ == join_spec(
                    seq![train.code0@, train.code1@, train.dt0@, train.time0@, train.tnum0@],
                    '_',
                ),
                _ => false,
            }
        },
    }
}

/// A subscription token was clicked while trains are offered: a day or
/// train token is saved as a standing subscription, field for field; any
/// other token is reported and the offer stays.
pub open spec fn subscribe_step(trains: Vec<Train>, token: String, t: Transition) -> bool {
    let parts = split_spec(token@, '_');
    if parts.len() == 3 || parts.len() == 5 {
        &&& t.next == State::AwaitingTrainChoice { trains }
        &&& t.renders@.len() == 0
        &&& match t.action {
            Some(Action::SaveTask { record }) => task_fields(record) == parts && (record matches
                TaskRecord::Day { .. } <==> parts.len() == 3),
            _ => false,
        }
    } else {
        choice_nudge(State::AwaitingTrainChoice { trains }, t)
    }
}

/// A candidate was clicked: a token naming a current candidate (one-based)
/// carries exactly that candidate's code onward; anything else keeps the
/// state and reports the choice.
pub open spec fn point_choice_step(
    candidates: Vec<GetRZDPointCodes>,
    token: String,
    stay: State,
    chosen_next: spec_fn(String) -> State,
    t: Transition,
) -> bool {
    match parse_u32_spec(token@) {
        Some(i) => {
            if 1 <= i && i as int <= candidates@.len() {
                &&& t.next == chosen_next(candidates@[i as int - 1].code)
                &&& t.renders@.len() == 1
                &&& t.action is None
            } else {
                choice_nudge(stay, t)
            }
        },
        None => choice_nudge(stay, t),
    }
}

/// The whole machine, one spec clause per event kind.
pub open spec fn user_text_spec(state: State, text: String, t: Transition) -> bool {
    match state {
        State::Idle => silent_stay(state, t),
        State::AwaitingOrigin => resolve_step(state, text, t),
        State::AwaitingOriginChoice { .. } => choice_nudge(state, t),
        State::AwaitingDestination { .. } => resolve_step(state, text, t),
        State::AwaitingDestinationChoice { .. } => choice_nudge(state, t),
        State::AwaitingDate { origin, destination } => date_text_step(
            origin,
            destination,
            text,
            t,
        ),
        State::AwaitingTrainChoice { trains } => train_index_step(trains, text, t),
    }
}

pub open spec fn user_choice_spec(state: State, token: String, t: Transition) -> bool {
    match state {
        State::AwaitingOriginChoice { candidates } => {
            &&& point_choice_step(
                candidates,
                token,
                State::AwaitingOriginChoice { candidates },
                |code: String| State::AwaitingDestination { origin: code },
                t,
            )
            &&& (t.next matches State::AwaitingDestination { .. } ==> t.renders@.len() == 1
                && t.renders@[0] is PromptDestination)
        },
        State::AwaitingDestinationChoice { origin, candidates } => {
            &&& point_choice_step(
                candidates,
                token,
                State::AwaitingDestinationChoice { origin, candidates },
                |code: String| State::AwaitingDate { origin, destination: code },
                t,
            )
            &&& (t.next matches State::AwaitingDate { .. } ==> t.renders@.len() == 1
                && t.renders@[0] is PromptDate)
        },
        State::AwaitingTrainChoice { trains } => subscribe_step(trains, token, t),
        _ => silent_stay(state, t),
    }
}

pub open spec fn points_result_spec(
    state: State,
    result: Result<Vec<GetRZDPointCodes>, Failure>,
    t: Transition,
) -> bool {
    match state {
        State::AwaitingOrigin => points_arrival(
            PointRole::Origin,
            |cands: Vec<GetRZDPointCodes>| State::AwaitingOriginChoice { candidates: cands },
            result,
            t,
        ),
        State::AwaitingDestination { origin } => points_arrival(
            PointRole::Destination,
            |cands: Vec<GetRZDPointCodes>|
                State::AwaitingDestinationChoice { origin, candidates: cands },
            result,
            t,
        ),
        _ => silent_stay(state, t),
    }
}

pub open spec fn schedule_result_spec(
    state: State,
    date: String,
    result: Result<GetRZDTrainsResponse, Failure>,
    t: Transition,
) -> bool {
    match state {
        State::AwaitingDate { origin, destination } => schedule_arrival(
            origin,
            destination,
            date,
            result,
            t,
        ),
        _ => silent_stay(state, t),
    }
}

pub open spec fn carriages_result_spec(
    state: State,
    train: Train,
    result: Result<GetRZDTrainsCarriagesResponse, Failure>,
    t: Transition,
) -> bool {
    match state {
        State::AwaitingTrainChoice { .. } => carriages_arrival(train, result, t),
        _ => silent_stay(state, t),
    }
}

fn stay_silent(state: State) -> (t: Transition)
    ensures
        silent_stay(state, t),
{
    Transition { next: state, renders: Vec::new(), action: None }
}

fn stay_nudged(state: State) -> (t: Transition)
    ensures
        choice_nudge(state, t),
{
    let mut renders: Vec<RenderInstruction> = Vec::new();
    renders.push(RenderInstruction::InvalidChoice);
    Transition { next: state, renders, action: None }
}

fn reset_with(instruction: RenderInstruction) -> (t: Transition)
    ensures
        t.next is Idle && t.action is None && t.renders@.len() == 1 && t.renders@[0]
            == instruction,
{
    let mut renders: Vec<RenderInstruction> = Vec::new();
    renders.push(instruction);
    Transition { next: State::Idle, renders, action: None }
}

/// The user cancelled: any state resets, and nothing else happens. No
/// cancellation reaches an in-flight query; a result still under way will
/// arrive in `Idle` and be discarded.
pub fn on_cancel(state: State) -> (t: Transition)
    ensures
        t.next is Idle,
        t.renders@.len() == 1 && t.renders@[0] is Canceled,
        t.action is None,
{
    reset_with(RenderInstruction::Canceled)
}

/// The conversation (re-)starts: any state moves to awaiting the origin.
pub fn on_start(state: State) -> (t: Transition)
    ensures
        t.next is AwaitingOrigin,
        t.renders@.len() == 1 && t.renders@[0] is PromptOrigin,
        t.action is None,
{
    let mut renders: Vec<RenderInstruction> = Vec::new();
    renders.push(RenderInstruction::PromptOrigin);
    Transition { next: State::AwaitingOrigin, renders, action: None }
}

/// The user sent text; what it means depends on what is awaited, as
/// `user_text_spec` says case by case.
pub fn on_user_text(state: State, text: String) -> (t: Transition)
    ensures
        user_text_spec(state, text, t),
        state_wf(state) ==> state_wf(t.next),
{
    match state {
        State::Idle => stay_silent(State::Idle),
        State::AwaitingOrigin => Transition {
            next: State::AwaitingOrigin,
            renders: Vec::new(),
            action: Some(Action::ResolvePoints { query: text }),
        },
        State::AwaitingOriginChoice { candidates } => stay_nudged(
            State::AwaitingOriginChoice { candidates },
        ),
        State::AwaitingDestination { origin } => Transition {
            next: State::AwaitingDestination { origin },
            renders: Vec::new(),
            action: Some(Action::ResolvePoints { query: text }),
        },
        State::AwaitingDestinationChoice { origin, candidates } => stay_nudged(
            State::AwaitingDestinationChoice { origin, candidates },
        ),
        State::AwaitingDate { origin, destination } => match parse_date(text.as_str()) {
            Some(d) => {
                let formatted = format_date(&d);
                let action = Action::RunSchedule {
                    origin: origin.clone(),
                    destination: destination.clone(),
                    date: formatted,
                };
                Transition {
                    next: State::AwaitingDate { origin, destination },
                    renders: Vec::new(),
                    action: Some(action),
                }
            },
            None => {
                let mut renders: Vec<RenderInstruction> = Vec::new();
                renders.push(RenderInstruction::InvalidDate);
                Transition {
                    next: State::AwaitingDate { origin, destination },
                    renders,
                    action: None,
                }
            },
        },
        State::AwaitingTrainChoice { trains } => {
            let idx = match parse_u32(text.as_str()) {
                Some(i) => i,
                None => {
                    return reset_with(RenderInstruction::InvalidIndex);
                },
            };
            if idx < 1 || idx as usize > trains.len() {
                return reset_with(RenderInstruction::InvalidIndex);
            }
            let chosen = trains[idx as usize - 1].clone();
            Transition {
                next: State::AwaitingTrainChoice { trains },
                renders: Vec::new(),
                action: Some(Action::RunCarriages { train: chosen }),
            }
        },
    }
}

/// The user clicked a button; what its token means depends on what is
/// awaited, as `user_choice_spec` says case by case.
pub fn on_user_choice(state: State, token: String) -> (t: Transition)
    ensures
        user_choice_spec(state, token, t),
        state_wf(state) ==> state_wf(t.next),
{
    match state {
        State::AwaitingOriginChoice { candidates } => {
            let idx = match parse_u32(token.as_str()) {
                Some(i) => i,
                None => {
                    return stay_nudged(State::AwaitingOriginChoice { candidates });
                },
            };
            if idx < 1 || idx as usize > candidates.len() {
                return stay_nudged(State::AwaitingOriginChoice { candidates });
            }
            let code = candidates[idx as usize - 1].code.clone();
            let mut renders: Vec<RenderInstruction> = Vec::new();
            renders.push(RenderInstruction::PromptDestination);
            Transition { next: State::AwaitingDestination { origin: code }, renders, action: None }
        },
        State::AwaitingDestinationChoice { origin, candidates } => {
            let idx = match parse_u32(token.as_str()) {
                Some(i) => i,
                None => {
                    return stay_nudged(State::AwaitingDestinationChoice { origin, candidates });
                },
            };
            if idx < 1 || idx as usize > candidates.len() {
                return stay_nudged(State::AwaitingDestinationChoice { origin, candidates });
            }
            let code = candidates[idx as usize - 1].code.clone();
            let mut renders: Vec<RenderInstruction> = Vec::new();
            renders.push(RenderInstruction::PromptDate);
            Transition {
                next: State::AwaitingDate { origin, destination: code },
                renders,
                action: None,
            }
        },
        State::AwaitingTrainChoice { trains } => {
            match crate::tasks::decode_task(token.as_str()) {
                Some(record) => Transition {
                    next: State::AwaitingTrainChoice { trains },
                    renders: Vec::new(),
                    action: Some(Action::SaveTask { record }),
                },
                None => stay_nudged(State::AwaitingTrainChoice { trains }),
            }
        },
        other => stay_silent(other),
    }
}

fn build_options(candidates: &Vec<GetRZDPointCodes>) -> (options: Vec<ChoiceOption>)
    ensures
        options_for(options@, candidates@),
{
    let mut options: Vec<ChoiceOption> = Vec::new();
    let mut i: usize = 0;
    while i < candidates.len()
        invariant
            i <= candidates@.len(),
            options_for(options@, candidates@.subrange(0, i as int)),
        decreases candidates@.len() - i,
    {
        let label = candidates[i].name.clone();
        let token = format_u64((i as u64) + 1);
        options.push(ChoiceOption { label, token });
        i = i + 1;
    }
    proof {
        assert(candidates@.subrange(0, candidates@.len() as int) =~= candidates@);
    }
    options
}

/// Point candidates came back, as `points_result_spec` says: a non-empty
/// list is offered in its returned order; an empty list or a failure
/// resets with a report; a stale answer is discarded.
pub fn on_points_result(state: State, result: Result<Vec<GetRZDPointCodes>, Failure>) -> (t:
    Transition)
    ensures
        points_result_spec(state, result, t),
        state_wf(state) ==> state_wf(t.next),
{
    match state {
        State::AwaitingOrigin => match result {
            Err(f) => reset_with(RenderInstruction::ReportFailure { failure: f }),
            Ok(cands) => {
                if cands.len() == 0 {
                    reset_with(RenderInstruction::ReportFailure { failure: Failure::NotFound })
                } else {
                    let options = build_options(&cands);
                    let mut renders: Vec<RenderInstruction> = Vec::new();
                    renders.push(
                        RenderInstruction::OfferPoints { role: PointRole::Origin, options },
                    );
                    Transition {
                        next: State::AwaitingOriginChoice { candidates: cands },
                        renders,
                        action: None,
                    }
                }
            },
        },
        State::AwaitingDestination { origin } => match result {
            Err(f) => reset_with(RenderInstruction::ReportFailure { failure: f }),
            Ok(cands) => {
                if cands.len() == 0 {
                    reset_with(RenderInstruction::ReportFailure { failure: Failure::NotFound })
                } else {
                    let options = build_options(&cands);
                    let mut renders: Vec<RenderInstruction> = Vec::new();
                    renders.push(
                        RenderInstruction::OfferPoints { role: PointRole::Destination, options },
                    );
                    Transition {
                        next: State::AwaitingDestinationChoice { origin, candidates: cands },
                        renders,
                        action: None,
                    }
                }
            },
        },
        other => stay_silent(other),
    }
}

/// A timetable answer came back, as `schedule_result_spec` says: the
/// surviving listings are offered densely numbered, nothing surviving or a
/// failure resets, and a stale answer is discarded.
pub fn on_schedule_result(
    state: State,
    date: String,
    result: Result<GetRZDTrainsResponse, Failure>,
) -> (t: Transition)
    ensures
        schedule_result_spec(state, date, result, t),
        state_wf(state) ==> state_wf(t.next),
{
    match state {
        State::AwaitingDate { origin, destination } => match result {
            Err(f) => reset_with(RenderInstruction::ReportFailure { failure: f }),
            Ok(resp) => {
                let ghost gresp = resp;
                let mut tp = resp.tp;
                let list: Vec<GetRZDTrains> = if tp.len() > 0 {
                    let first = tp.remove(0);
                    first.list
                } else {
                    Vec::new()
                };
                proof {
                    assert(list@ =~= schedule_list(gresp));
                }
                let mut trains: Vec<Train> = Vec::new();
                let mut summaries: Vec<TrainSummary> = Vec::new();
                let mut i: usize = 0;
                proof {
                    assert(list@.subrange(0, 0) =~= Seq::<GetRZDTrains>::empty());
                }
                while i < list.len()
                    invariant
                        i <= list@.len(),
                        trains_match(
                            trains@,
                            filtered_trains(list@.subrange(0, i as int)),
                            origin@,
                            destination@,
                        ),
                        summaries_match(summaries@, filtered_trains(list@.subrange(0, i as int))),
                    decreases list@.len() - i,
                {
                    let ghost pre = list@.subrange(0, i as int);
                    let ghost ext = list@.subrange(0, i as int + 1);
                    proof {
                        assert(ext.drop_last() =~= pre);
                        assert(ext.last() == list@[i as int]);
                    }
                    let entry = &list[i];
                    let count = count_compartment_seats(&entry.cars);
                    if count > 0 {
                        trains.push(
                            Train {
                                code0: origin.clone(),
                                code1: destination.clone(),
                                dt0: entry.date0.clone(),
                                time0: entry.time0.clone(),
                                tnum0: entry.number.clone(),
                            },
                        );
                        summaries.push(
                            TrainSummary {
                                number: entry.number.clone(),
                                date: entry.date0.clone(),
                                time: entry.time0.clone(),
                                free_seats: count,
                            },
                        );
                        proof {
                            assert(filtered_trains(ext) =~= filtered_trains(pre) + seq![
                                list@[i as int],
                            ]);
                        }
                    } else {
                        proof {
                            assert(filtered_trains(ext) =~= filtered_trains(pre));
                        }
                    }
                    i = i + 1;
                }
                proof {
                    assert(list@.subrange(0, list@.len() as int) =~= list@);
                }
                if trains.len() == 0 {
                    reset_with(RenderInstruction::NothingFound)
                } else {
                    let ghost gdate = date@;
                    let record = TaskRecord::Day {
                        origin: origin.clone(),
                        destination: destination.clone(),
                        date,
                    };
                    let day_token = encode_task(&record);
                    proof {
                        assert(task_fields(record) =~= seq![origin@, destination@, gdate]);
                    }
                    let mut renders: Vec<RenderInstruction> = Vec::new();
                    renders.push(RenderInstruction::ShowTrains { summaries, day_token });
                    Transition {
                        next: State::AwaitingTrainChoice { trains },
                        renders,
                        action: None,
                    }
                }
            },
        },
        other => stay_silent(other),
    }
}

/// A carriage answer came back, as `carriages_result_spec` says: the
/// blocks render with a token for the exact train asked about, the flow
/// resets either way, and a stale answer is discarded.
pub fn on_carriages_result(
    state: State,
    train: Train,
    result: Result<GetRZDTrainsCarriagesResponse, Failure>,
) -> (t: Transition)
    ensures
        carriages_result_spec(state, train, result, t),
        state_wf(state) ==> state_wf(t.next),
{
    match state {
        State::AwaitingTrainChoice { trains } => match result {
            Err(f) => reset_with(RenderInstruction::ReportFailure { failure: f }),
            Ok(resp) => {
                let ghost gresp = resp;
                let mut lst = resp.lst;
                let cars = if lst.len() > 0 {
                    let first = lst.remove(0);
                    first.cars
                } else {
                    Vec::new()
                };
                proof {
                    assert(cars@ =~= carriage_cars(gresp));
                }
                let blocks = reduce(&cars);
                let ghost gtrain = train;
                let record = TaskRecord::Train {
                    origin: train.code0,
                    destination: train.code1,
                    date: train.dt0,
                    time: train.time0,
                    number: train.tnum0,
                };
                let train_token = encode_task(&record);
                proof {
                    assert(task_fields(record) =~= seq![
                        gtrain.code0@,
                        gtrain.code1@,
                        gtrain.dt0@,
                        gtrain.time0@,
                        gtrain.tnum0@,
                    ]);
                }
                let mut renders: Vec<RenderInstruction> = Vec::new();
                renders.push(RenderInstruction::ShowCompartments { blocks, train_token });
                Transition { next: State::Idle, renders, action: None }
            },
        },
        other => stay_silent(other),
    }
}

/// The whole coordinator as one pure transition function: it dispatches on
/// the event, and each event's meaning is exactly its handler's spec. A
/// cancel always resets, and a well-formed state only ever moves to a
/// well-formed state.
pub fn transition(state: State, event: Event) -> (t: Transition)
    ensures
        event is Start ==> t.next is AwaitingOrigin && t.renders@.len() == 1 && t.renders@[0]
            is PromptOrigin && t.action is None,
        event is Cancel ==> t.next is Idle && t.renders@.len() == 1 && t.renders@[0] is Canceled
            && t.action is None,
        (event matches Event::UserText { text } ==> user_text_spec(state, text, t)),
        (event matches Event::UserChoice { token } ==> user_choice_spec(state, token, t)),
        (event matches Event::PointsResult { result } ==> points_result_spec(state, result, t)),
        (event matches Event::ScheduleResult { date, result } ==> schedule_result_spec(
            state,
            date,
            result,
            t,
        )),
        (event matches Event::CarriagesResult { train, result } ==> carriages_result_spec(
            state,
            train,
            result,
            t,
        )),
        state_wf(state) ==> state_wf(t.next),
{
    match event {
        Event::Start => on_start(state),
        Event::Cancel => on_cancel(state),
        Event::UserText { text } => on_user_text(state, text),
        Event::UserChoice { token } => on_user_choice(state, token),
        Event::PointsResult { result } => on_points_result(state, result),
        Event::ScheduleResult { date, result } => on_schedule_result(state, date, result),
        Event::CarriagesResult { train, result } => on_carriages_result(state, train, result),
    }
}

} // verus!
