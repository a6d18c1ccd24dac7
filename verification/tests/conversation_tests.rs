use rzd_coupe::conversation::{
    on_cancel, on_carriages_result, on_points_result, on_schedule_result, on_start,
    on_user_choice, on_user_text, transition, Action, Event, PointRole, RenderInstruction, State,
    Train,
};
use rzd_coupe::errors::Failure;
use rzd_coupe::rzd::{
    GetRZDPointCodes, GetRZDTrains, GetRZDTrainsCars, GetRZDTrainsCarriagesCars,
    GetRZDTrainsCarriagesListResponse, GetRZDTrainsCarriagesResponse, GetRZDTrainsListResponse,
    GetRZDTrainsResponse,
};
use rzd_coupe::tasks::TaskRecord;
use rzd_coupe::text::split_str;

const CUPE: &str = "\u{043a}\u{0443}\u{043f}\u{0435}";

fn point(code: &str, name: &str) -> GetRZDPointCodes {
    GetRZDPointCodes { code: code.to_string(), name: name.to_string() }
}

fn car(car_type: &str, disabled: bool, free: usize) -> GetRZDTrainsCars {
    GetRZDTrainsCars { _type: car_type.to_string(), disabled_person: disabled, free_seats: free }
}

fn listing(number: &str, date: &str, time: &str, cars: Vec<GetRZDTrainsCars>) -> GetRZDTrains {
    GetRZDTrains {
        cars,
        number: number.to_string(),
        date0: date.to_string(),
        time0: time.to_string(),
    }
}

fn schedule(listings: Vec<GetRZDTrains>) -> GetRZDTrainsResponse {
    GetRZDTrainsResponse { tp: vec![GetRZDTrainsListResponse { list: listings }] }
}

fn train(num: &str) -> Train {
    Train {
        code0: "2000000".to_string(),
        code1: "2004000".to_string(),
        dt0: "01.02.2031".to_string(),
        time0: "10:05".to_string(),
        tnum0: num.to_string(),
    }
}

#[test]
fn cancel_resets_from_any_state() {
    let states = vec![
        State::Idle,
        State::AwaitingOrigin,
        State::AwaitingDate {
            origin: "1".to_string(),
            destination: "2".to_string(),
        },
        State::AwaitingTrainChoice { trains: vec![train("1A")] },
    ];
    for s in states {
        let t = on_cancel(s);
        assert!(matches!(t.next, State::Idle));
        assert!(matches!(t.renders[0], RenderInstruction::Canceled));
        assert!(t.action.is_none());
    }
}

#[test]
fn start_asks_for_the_origin() {
    let t = on_start(State::Idle);
    assert!(matches!(t.next, State::AwaitingOrigin));
    assert!(matches!(t.renders[0], RenderInstruction::PromptOrigin));
}

// The end-to-end walk of the origin step: free text resolves, two
// candidates arrive, the second one's token carries exactly its code.
#[test]
fn origin_flow_carries_the_chosen_code() {
    let t = on_user_text(State::AwaitingOrigin, "Moscow".to_string());
    match &t.action {
        Some(Action::ResolvePoints { query }) => assert_eq!(query, "Moscow"),
        _ => panic!("expected a resolve action"),
    }
    assert!(matches!(t.next, State::AwaitingOrigin));

    let candidates = vec![point("2000000", "MOSKVA"), point("2004000", "MOSKVA OKT")];
    let t = on_points_result(t.next, Ok(candidates));
    match &t.renders[0] {
        RenderInstruction::OfferPoints { role, options } => {
            assert_eq!(*role, PointRole::Origin);
            assert_eq!(options.len(), 2);
            assert_eq!(options[0].label, "MOSKVA");
            assert_eq!(options[0].token, "1");
            assert_eq!(options[1].label, "MOSKVA OKT");
            assert_eq!(options[1].token, "2");
        }
        _ => panic!("expected offered points"),
    }
    assert!(matches!(&t.next, State::AwaitingOriginChoice { candidates } if candidates.len() == 2));

    let t = on_user_choice(t.next, "2".to_string());
    match &t.next {
        State::AwaitingDestination { origin } => assert_eq!(origin, "2004000"),
        _ => panic!("expected to await the destination"),
    }
    assert!(matches!(t.renders[0], RenderInstruction::PromptDestination));
}

#[test]
fn invalid_origin_choice_keeps_the_candidates() {
    for bad in ["0", "3", "x", ""] {
        let state = State::AwaitingOriginChoice {
            candidates: vec![point("1", "A"), point("2", "B")],
        };
        let t = on_user_choice(state, bad.to_string());
        assert!(matches!(t.renders[0], RenderInstruction::InvalidChoice), "token {:?}", bad);
        assert!(
            matches!(&t.next, State::AwaitingOriginChoice { candidates } if candidates.len() == 2)
        );
    }
}

#[test]
fn empty_candidates_reset_with_a_report() {
    let t = on_points_result(State::AwaitingOrigin, Ok(vec![]));
    assert!(matches!(t.next, State::Idle));
    assert!(matches!(
        t.renders[0],
        RenderInstruction::ReportFailure { failure: Failure::NotFound }
    ));
}

#[test]
fn resolver_failure_resets_with_its_report() {
    let t = on_points_result(
        State::AwaitingDestination { origin: "1".to_string() },
        Err(Failure::RetryBudgetExhausted),
    );
    assert!(matches!(t.next, State::Idle));
    match &t.renders[0] {
        RenderInstruction::ReportFailure { failure } => {
            assert_eq!(failure.message(), "exhausted retry budget");
        }
        _ => panic!("expected a failure report"),
    }
}

#[test]
fn date_text_starts_the_schedule_query_with_the_held_codes() {
    let state = State::AwaitingDate {
        origin: "2000000".to_string(),
        destination: "2004000".to_string(),
    };
    let t = on_user_text(state, "1.2.2031".to_string());
    match &t.action {
        Some(Action::RunSchedule { origin, destination, date }) => {
            assert_eq!(origin, "2000000");
            assert_eq!(destination, "2004000");
            assert_eq!(date, "01.02.2031");
        }
        _ => panic!("expected a schedule query"),
    }
    assert!(matches!(t.next, State::AwaitingDate { .. }));
}

#[test]
fn unparsable_date_is_reported_and_the_state_kept() {
    let state = State::AwaitingDate { origin: "1".to_string(), destination: "2".to_string() };
    let t = on_user_text(state, "tomorrow".to_string());
    assert!(matches!(t.renders[0], RenderInstruction::InvalidDate));
    assert!(matches!(t.next, State::AwaitingDate { .. }));
    assert!(t.action.is_none());
}

// Listings whose compartment-seat total is zero never reach the user: a
// schedule in which every listing totals zero resets with nothing-found,
// never an empty choice list.
#[test]
fn all_zero_listings_reset_with_nothing_found() {
    let state = State::AwaitingDate { origin: "1".to_string(), destination: "2".to_string() };
    let resp = schedule(vec![
        listing("001A", "01.02.2031", "10:05", vec![car(CUPE, false, 0)]),
        listing("002B", "01.02.2031", "11:05", vec![car("\u{043f}\u{043b}\u{0430}\u{0446}", false, 30)]),
        listing("003C", "01.02.2031", "12:05", vec![car(CUPE, true, 12)]),
    ]);
    let t = on_schedule_result(state, "01.02.2031".to_string(), Ok(resp));
    assert!(matches!(t.next, State::Idle));
    assert!(matches!(t.renders[0], RenderInstruction::NothingFound));
}

#[test]
fn surviving_listings_are_offered_densely() {
    let state = State::AwaitingDate {
        origin: "2000000".to_string(),
        destination: "2004000".to_string(),
    };
    let resp = schedule(vec![
        listing("001A", "01.02.2031", "10:05", vec![car(CUPE, false, 0)]),
        listing("002B", "01.02.2031", "11:05", vec![car(CUPE, false, 7), car(CUPE, true, 3)]),
        listing("003C", "01.02.2031", "12:05", vec![car("\u{041a}\u{0443}\u{043f}\u{0435}", false, 4)]),
    ]);
    let t = on_schedule_result(state, "01.02.2031".to_string(), Ok(resp));
    match &t.renders[0] {
        RenderInstruction::ShowTrains { summaries, day_token } => {
            assert_eq!(summaries.len(), 2);
            assert_eq!(summaries[0].number, "002B");
            assert_eq!(summaries[0].free_seats, 7);
            assert_eq!(summaries[1].number, "003C");
            assert_eq!(summaries[1].free_seats, 4);
            assert_eq!(day_token, "2000000_2004000_01.02.2031");
        }
        _ => panic!("expected the train listing"),
    }
    match &t.next {
        State::AwaitingTrainChoice { trains } => {
            assert_eq!(trains.len(), 2);
            assert_eq!(trains[0].tnum0, "002B");
            assert_eq!(trains[0].code0, "2000000");
            assert_eq!(trains[0].code1, "2004000");
            assert_eq!(trains[1].tnum0, "003C");
        }
        _ => panic!("expected to await the train choice"),
    }
}

#[test]
fn empty_schedule_answer_resets_with_nothing_found() {
    let state = State::AwaitingDate { origin: "1".to_string(), destination: "2".to_string() };
    let resp = GetRZDTrainsResponse { tp: vec![] };
    let t = on_schedule_result(state, "01.02.2031".to_string(), Ok(resp));
    assert!(matches!(t.next, State::Idle));
    assert!(matches!(t.renders[0], RenderInstruction::NothingFound));
}

// An index beyond the offered list always resets, for list lengths 0 to 3.
#[test]
fn out_of_range_index_always_resets() {
    for len in 0..4usize {
        let trains: Vec<Train> = (0..len).map(|i| train(&format!("{}A", i))).collect();
        let t = on_user_text(
            State::AwaitingTrainChoice { trains },
            format!("{}", len + 1),
        );
        assert!(matches!(t.next, State::Idle), "length {}", len);
        assert!(matches!(t.renders[0], RenderInstruction::InvalidIndex));
        assert!(t.action.is_none());
    }
}

#[test]
fn zero_and_junk_indices_reset_too() {
    for bad in ["0", "-1", "first", ""] {
        let t = on_user_text(
            State::AwaitingTrainChoice { trains: vec![train("1A")] },
            bad.to_string(),
        );
        assert!(matches!(t.next, State::Idle), "text {:?}", bad);
        assert!(matches!(t.renders[0], RenderInstruction::InvalidIndex));
    }
}

#[test]
fn valid_index_queries_exactly_that_train() {
    let trains = vec![train("001A"), train("002B")];
    let t = on_user_text(State::AwaitingTrainChoice { trains }, "2".to_string());
    match &t.action {
        Some(Action::RunCarriages { train }) => assert_eq!(train.tnum0, "002B"),
        _ => panic!("expected a carriage query"),
    }
    assert!(matches!(&t.next, State::AwaitingTrainChoice { trains } if trains.len() == 2));
}

#[test]
fn carriage_answer_renders_blocks_and_resets() {
    let state = State::AwaitingTrainChoice { trains: vec![train("001A")] };
    let resp = GetRZDTrainsCarriagesResponse {
        lst: vec![GetRZDTrainsCarriagesListResponse {
            cars: vec![GetRZDTrainsCarriagesCars {
                places: split_str("21-28", ','),
                cnumber: "07".to_string(),
                _type: CUPE.to_string(),
            }],
        }],
    };
    let t = on_carriages_result(state, train("001A"), Ok(resp));
    assert!(matches!(t.next, State::Idle));
    match &t.renders[0] {
        RenderInstruction::ShowCompartments { blocks, train_token } => {
            assert_eq!(blocks.len(), 2);
            assert_eq!(blocks[0].first_seat, 21);
            assert_eq!(blocks[1].first_seat, 25);
            assert_eq!(train_token, "2000000_2004000_01.02.2031_10:05_001A");
        }
        _ => panic!("expected compartments"),
    }
}

#[test]
fn carriage_failure_resets_with_its_report() {
    let state = State::AwaitingTrainChoice { trains: vec![train("001A")] };
    let t = on_carriages_result(state, train("001A"), Err(Failure::PollBudgetExhausted));
    assert!(matches!(t.next, State::Idle));
    match &t.renders[0] {
        RenderInstruction::ReportFailure { failure } => {
            assert_eq!(failure.message(), "exhausted polling budget");
        }
        _ => panic!("expected a failure report"),
    }
}

#[test]
fn subscription_token_saves_a_task() {
    let state = State::AwaitingTrainChoice { trains: vec![train("001A")] };
    let t = on_user_choice(state, "2000000_2004000_01.02.2031".to_string());
    match &t.action {
        Some(Action::SaveTask { record: TaskRecord::Day { origin, destination, date } }) => {
            assert_eq!(origin, "2000000");
            assert_eq!(destination, "2004000");
            assert_eq!(date, "01.02.2031");
        }
        _ => panic!("expected a saved day task"),
    }
}

#[test]
fn stale_results_are_discarded() {
    let t = on_points_result(State::Idle, Ok(vec![point("1", "A")]));
    assert!(matches!(t.next, State::Idle));
    assert!(t.renders.is_empty());
    assert!(t.action.is_none());

    let t = on_schedule_result(
        State::AwaitingOrigin,
        "01.02.2031".to_string(),
        Err(Failure::NotFound),
    );
    assert!(matches!(t.next, State::AwaitingOrigin));
    assert!(t.renders.is_empty());
}

#[test]
fn a_whole_conversation_runs_start_to_blocks() {
    // Start.
    let t = transition(State::Idle, Event::Start);
    assert!(matches!(t.next, State::AwaitingOrigin));

    // Origin: text, candidates, choice.
    let t = transition(t.next, Event::UserText { text: "Moscow".to_string() });
    let t = transition(
        t.next,
        Event::PointsResult { result: Ok(vec![point("2000000", "MOSKVA")]) },
    );
    let t = transition(t.next, Event::UserChoice { token: "1".to_string() });
    assert!(matches!(&t.next, State::AwaitingDestination { origin } if origin == "2000000"));

    // Destination: text, candidates, choice.
    let t = transition(t.next, Event::UserText { text: "Piter".to_string() });
    let t = transition(
        t.next,
        Event::PointsResult { result: Ok(vec![point("2004000", "SANKT-PETERBURG")]) },
    );
    let t = transition(t.next, Event::UserChoice { token: "1".to_string() });
    assert!(matches!(
        &t.next,
        State::AwaitingDate { origin, destination }
            if origin == "2000000" && destination == "2004000"
    ));

    // Date: text becomes a schedule query; the answer offers one train.
    let t = transition(t.next, Event::UserText { text: "1.2.2031".to_string() });
    let date = match &t.action {
        Some(Action::RunSchedule { date, .. }) => date.clone(),
        _ => panic!("expected a schedule query"),
    };
    assert_eq!(date, "01.02.2031");
    let resp = schedule(vec![listing("001A", "01.02.2031", "10:05", vec![car(CUPE, false, 7)])]);
    let t = transition(t.next, Event::ScheduleResult { date, result: Ok(resp) });
    assert!(matches!(&t.next, State::AwaitingTrainChoice { trains } if trains.len() == 1));

    // Train: index starts the carriage query; the answer renders blocks
    // and ends the flow.
    let t = transition(t.next, Event::UserText { text: "1".to_string() });
    let chosen = match &t.action {
        Some(Action::RunCarriages { train }) => train.clone(),
        _ => panic!("expected a carriage query"),
    };
    assert_eq!(chosen.tnum0, "001A");
    let resp = GetRZDTrainsCarriagesResponse {
        lst: vec![GetRZDTrainsCarriagesListResponse {
            cars: vec![GetRZDTrainsCarriagesCars {
                places: split_str("1-4", ','),
                cnumber: "03".to_string(),
                _type: CUPE.to_string(),
            }],
        }],
    };
    let t = transition(t.next, Event::CarriagesResult { train: chosen, result: Ok(resp) });
    assert!(matches!(t.next, State::Idle));
    match &t.renders[0] {
        RenderInstruction::ShowCompartments { blocks, .. } => {
            assert_eq!(blocks.len(), 1);
            assert_eq!(blocks[0].car_number, "03");
            assert_eq!((blocks[0].first_seat, blocks[0].last_seat), (1, 4));
        }
        _ => panic!("expected compartments"),
    }
}

#[test]
fn transition_dispatches_like_the_handlers() {
    let t = transition(State::Idle, Event::Start);
    assert!(matches!(t.next, State::AwaitingOrigin));
    let t = transition(State::AwaitingOrigin, Event::Cancel);
    assert!(matches!(t.next, State::Idle));
    let t = transition(
        State::AwaitingOrigin,
        Event::UserText { text: "Moscow".to_string() },
    );
    assert!(matches!(t.action, Some(Action::ResolvePoints { .. })));
}
