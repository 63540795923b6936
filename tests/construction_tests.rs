use rhino::construction::SDK_NAME;
use rhino::engine::SYMBOL_COUNT;
use rhino::{Construction, InitReply, InitStep, NativeSymbol, PvStatus, RhinoBuilder, RhinoErrorStatus};

fn session() -> Construction {
    let b = RhinoBuilder::new(
        "key".to_string(),
        "coffee_maker.rhn".to_string(),
        "libpv_rhino.so".to_string(),
        "rhino_params.pv".to_string(),
    );
    Construction::new(b, true, true, true)
}

fn healthy(step: InitStep) -> InitReply {
    match step {
        InitStep::LoadLibrary => InitReply::LibraryOpened(Ok(())),
        InitStep::ResolveSymbol(_) => InitReply::SymbolResolved(Ok(())),
        InitStep::SetSdk => InitReply::SdkSet,
        InitStep::CreateEngine => InitReply::EngineCreated(PvStatus::SUCCESS),
        InitStep::ReadVersion => InitReply::Version("3.0.0".to_string()),
        InitStep::ReadContextInfo => InitReply::ContextInfo(PvStatus::SUCCESS, "context: coffee".to_string()),
        InitStep::ReadSampleRate => InitReply::SampleRate(16000),
        InitStep::ReadFrameLength => InitReply::FrameLength(512),
        InitStep::DeleteEngine => InitReply::EngineDeleted,
        other => panic!("unexpected step {other:?}"),
    }
}

fn drive(mut reply: impl FnMut(InitStep) -> InitReply) -> (Vec<InitStep>, Result<rhino::EngineInfo, rhino::RhinoError>) {
    let mut s = session();
    let mut steps = Vec::new();
    loop {
        let step = s.next_step();
        steps.push(step);
        if step == InitStep::Finished {
            break;
        }
        s.handle(reply(step));
    }
    (steps, s.finish().unwrap())
}

#[test]
fn healthy_library_builds_an_engine() {
    let (steps, r) = drive(healthy);
    let symbols: Vec<NativeSymbol> = steps
        .iter()
        .filter_map(|s| match s {
            InitStep::ResolveSymbol(sym) => Some(*sym),
            _ => None,
        })
        .collect();
    let expected: Vec<NativeSymbol> = (0..SYMBOL_COUNT).map(NativeSymbol::at).collect();
    assert_eq!(symbols, expected);
    assert_eq!(symbols.len(), 14);
    assert_eq!(steps[0], InitStep::LoadLibrary);
    assert_eq!(
        steps[15..].to_vec(),
        vec![
            InitStep::SetSdk,
            InitStep::CreateEngine,
            InitStep::ReadVersion,
            InitStep::ReadContextInfo,
            InitStep::ReadSampleRate,
            InitStep::ReadFrameLength,
            InitStep::Finished,
        ]
    );
    let info = r.unwrap();
    assert_eq!(info.frame_length(), 512);
    assert_eq!(info.sample_rate(), 16000);
    assert_eq!(info.version(), "3.0.0");
    assert_eq!(info.context_info(), "context: coffee");
    assert_eq!(SDK_NAME, "rust");
}

#[test]
fn configuration_is_kept_for_the_constructor() {
    let s = session();
    assert_eq!(s.config().access_key_value(), "key");
    assert_eq!(s.config().context_path_value(), "coffee_maker.rhn");
}

#[test]
fn library_that_will_not_open_is_a_load_error() {
    let (steps, r) = drive(|step| match step {
        InitStep::LoadLibrary => InitReply::LibraryOpened(Err("no such file".to_string())),
        other => healthy(other),
    });
    assert_eq!(steps, vec![InitStep::LoadLibrary, InitStep::Finished]);
    let e = r.unwrap_err();
    assert_eq!(e.status, RhinoErrorStatus::LibraryLoadError);
    assert_eq!(e.message, "Failed to load rhino dynamic library: no such file");
}

#[test]
fn missing_symbol_stops_resolution_and_names_it() {
    let (steps, r) = drive(|step| match step {
        InitStep::ResolveSymbol(NativeSymbol::Reset) => InitReply::SymbolResolved(Err("undefined symbol".to_string())),
        other => healthy(other),
    });
    assert_eq!(steps.last(), Some(&InitStep::Finished));
    assert_eq!(steps[steps.len() - 2], InitStep::ResolveSymbol(NativeSymbol::Reset));
    assert!(!steps.contains(&InitStep::CreateEngine));
    let e = r.unwrap_err();
    assert_eq!(e.status, RhinoErrorStatus::LibraryLoadError);
    assert_eq!(e.message, "Failed to load function symbol 'pv_rhino_reset' from rhino library: undefined symbol");
}

#[test]
fn constructor_failure_reports_messages_and_deletes_nothing() {
    let (steps, r) = drive(|step| match step {
        InitStep::CreateEngine => InitReply::EngineCreated(PvStatus::ACTIVATION_REFUSED),
        InitStep::FetchErrorStack => InitReply::ErrorStack(Ok(vec!["key refused".to_string()])),
        other => healthy(other),
    });
    assert!(!steps.contains(&InitStep::DeleteEngine));
    let e = r.unwrap_err();
    assert_eq!(e.status, RhinoErrorStatus::LibraryError(PvStatus::ACTIVATION_REFUSED));
    assert_eq!(e.message, "'pv_rhino_init' failed");
    assert_eq!(e.message_stack, vec!["key refused".to_string()]);
}

#[test]
fn later_failure_deletes_the_engine_before_reporting() {
    let (steps, r) = drive(|step| match step {
        InitStep::ReadContextInfo => InitReply::ContextInfo(PvStatus::INVALID_STATE, String::new()),
        InitStep::FetchErrorStack => InitReply::ErrorStack(Ok(Vec::new())),
        other => healthy(other),
    });
    let n = steps.len();
    assert_eq!(steps[n - 3..].to_vec(), vec![InitStep::FetchErrorStack, InitStep::DeleteEngine, InitStep::Finished]);
    let e = r.unwrap_err();
    assert_eq!(e.status, RhinoErrorStatus::LibraryError(PvStatus::INVALID_STATE));
    assert_eq!(e.message, "'pv_rhino_context_info' failed");
}

#[test]
fn symbol_names_match_the_exports() {
    let names: Vec<&str> = (0..SYMBOL_COUNT).map(|i| NativeSymbol::at(i).name()).collect();
    assert_eq!(
        names,
        vec![
            "pv_rhino_init",
            "pv_rhino_process",
            "pv_rhino_delete",
            "pv_rhino_is_understood",
            "pv_rhino_get_intent",
            "pv_rhino_free_slots_and_values",
            "pv_rhino_reset",
            "pv_sample_rate",
            "pv_rhino_frame_length",
            "pv_rhino_version",
            "pv_rhino_context_info",
            "pv_get_error_stack",
            "pv_free_error_stack",
            "pv_set_sdk",
        ]
    );
}
