use canvas_layout::ime::{
    ImefCallback, ImefOpcode, Opcode, PluginError, Prediction, PredictionTriggers, Return,
};

fn triggers(newline: bool, punctuation: bool, whitespace: bool) -> PredictionTriggers {
    PredictionTriggers { newline, punctuation, whitespace }
}

#[test]
fn triggers_to_number() {
    let n: usize = triggers(false, false, false).into();
    assert_eq!(n, 0);
    let n: usize = triggers(true, false, false).into();
    assert_eq!(n, 1);
    let n: usize = triggers(false, true, false).into();
    assert_eq!(n, 2);
    let n: usize = triggers(false, false, true).into();
    assert_eq!(n, 4);
    let n: usize = triggers(true, true, false).into();
    assert_eq!(n, 3);
    let n: usize = triggers(true, true, true).into();
    assert_eq!(n, 7);
}

#[test]
fn triggers_from_number() {
    assert_eq!(PredictionTriggers::from(0), triggers(false, false, false));
    assert_eq!(PredictionTriggers::from(1), triggers(true, false, false));
    assert_eq!(PredictionTriggers::from(2), triggers(false, true, false));
    assert_eq!(PredictionTriggers::from(4), triggers(false, false, true));
    assert_eq!(PredictionTriggers::from(6), triggers(false, true, true));
    assert_eq!(PredictionTriggers::from(8), triggers(false, false, false));
    assert_eq!(PredictionTriggers::from(0xfff9), triggers(true, false, false));
    assert_eq!(PredictionTriggers::from(usize::MAX), triggers(true, true, true));
}

#[test]
fn triggers_round_trip() {
    for code in 0usize..8 {
        let back: usize = PredictionTriggers::from(code).into();
        assert_eq!(back, code);
    }
    for code in [8usize, 9, 255, 1 << 20, usize::MAX] {
        let back: usize = PredictionTriggers::from(code).into();
        assert_eq!(back, code & 7);
    }
}

#[test]
fn triggers_default_to_none() {
    assert_eq!(PredictionTriggers::default(), triggers(false, false, false));
}

#[test]
fn opcode_numbers() {
    assert_eq!(Opcode::Input.to_usize(), Some(0));
    assert_eq!(Opcode::Picked.to_usize(), Some(1));
    assert_eq!(Opcode::Unpick.to_usize(), Some(2));
    assert_eq!(Opcode::Prediction.to_usize(), Some(3));
    assert_eq!(Opcode::GetPredictionTriggers.to_usize(), Some(4));
    assert_eq!(Opcode::Input.to_u32(), Some(0));
    assert_eq!(Opcode::Picked.to_u32(), Some(1));
    assert_eq!(Opcode::Prediction.to_u32(), Some(3));
    assert_eq!(Opcode::from_usize(2), Some(Opcode::Unpick));
    assert_eq!(Opcode::from_usize(4), Some(Opcode::GetPredictionTriggers));
    assert_eq!(Opcode::from_usize(5), None);
    assert_eq!(Opcode::from_usize(usize::MAX), None);
    for n in 0usize..5 {
        assert_eq!(Opcode::from_usize(n).unwrap().to_usize(), Some(n));
    }
}

#[test]
fn front_end_opcode_numbers() {
    assert_eq!(ImefOpcode::ConnectBackend.to_usize(), Some(0));
    assert_eq!(ImefOpcode::RegisterListener.to_usize(), Some(1));
    assert_eq!(ImefOpcode::ProcessKeys.to_usize(), Some(2));
    assert_eq!(ImefOpcode::Redraw.to_usize(), Some(3));
    assert_eq!(ImefOpcode::ConnectBackend.to_u32(), Some(0));
    assert_eq!(ImefOpcode::Redraw.to_u32(), Some(3));
    assert_eq!(ImefOpcode::from_usize(1), Some(ImefOpcode::RegisterListener));
    assert_eq!(ImefOpcode::from_usize(4), None);
    for n in 0usize..4 {
        assert_eq!(ImefOpcode::from_usize(n).unwrap().to_usize(), Some(n));
    }
}

#[test]
fn callback_numbers() {
    assert_eq!(ImefCallback::GotInputLine.to_usize(), Some(0));
    assert_eq!(ImefCallback::Drop.to_usize(), Some(1));
    assert_eq!(ImefCallback::from_usize(0), Some(ImefCallback::GotInputLine));
    assert_eq!(ImefCallback::from_usize(1), Some(ImefCallback::Drop));
    assert_eq!(ImefCallback::from_usize(2), None);
}

#[test]
fn request_holds_no_prediction() {
    let p = Prediction::request(3);
    assert_eq!(p.index, 3);
    assert!(!p.valid);
    assert_eq!(p.string, "");
}

#[test]
fn answer_text() {
    let yes = Return::Prediction(Prediction { index: 0, valid: true, string: String::from("hello") });
    assert_eq!(yes.into_text(), Ok(Some(String::from("hello"))));
    let empty = Return::Prediction(Prediction { index: 0, valid: true, string: String::new() });
    assert_eq!(empty.into_text(), Ok(Some(String::new())));
    let no = Return::Prediction(Prediction { index: 1, valid: false, string: String::from("stale") });
    assert_eq!(no.into_text(), Ok(None));
    assert_eq!(Return::Failure.into_text(), Err(PluginError::InternalError));
}
