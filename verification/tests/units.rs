use std::any::TypeId;

use bevy::ecs::component::Tick;
use q_screens::{
    clean_up_scoped_entities, finish_loading, finish_unloading, handle_switch_msg, initial_screen,
    is_screen_scoped, on_switch_screen, register_screen, resolve_skip, run_fixed_schedules,
    run_schedules, switch_to_screen, CurrentScreen, InitialScreen, LoadStrategy, OnScreenCleanup,
    OnScreenLoad, OnScreenLoadQueued, OnScreenReady, OnScreenUnload, OnScreenUnloaded, ScopeSettings,
    ScreenChanged, ScreenData, ScreenError, ScreenId, ScreenIdFor, ScreenIds, ScreenInfo,
    ScreenRegistry, ScreenRun, ScreenSchedule, ScreenScheduleLabel, ScreenState, Screens, ScreensMut,
    SwitchToScreenMsg, transition_run,
};

struct A;
struct B;
struct C;

fn settings(skip_load: Option<bool>, skip_unload: Option<bool>) -> ScopeSettings {
    ScopeSettings {
        skip_load,
        skip_unload,
        load_strategy: LoadStrategy::Blocking,
        loading_systems: Some(0),
        unloading_systems: Some(0),
    }
}

struct World {
    registry: ScreenRegistry,
    ids: ScreenIds,
    data: ScreenData,
}

impl World {
    fn new() -> World {
        World { registry: ScreenRegistry::default(), ids: ScreenIds::default(), data: ScreenData::default() }
    }

    fn add<S: 'static>(&mut self, name: &str, s: ScopeSettings) -> Option<ScreenId> {
        register_screen(
            &mut self.registry,
            &mut self.ids,
            &mut self.data,
            name.to_string(),
            TypeId::of::<S>(),
            Tick::new(1),
            s,
        )
    }
}

fn info(state_skip_load: bool, skip_unload: bool) -> ScreenInfo {
    let mut i = ScreenInfo::new("S".to_string(), TypeId::of::<A>(), ScreenIds::default().next(), Tick::new(3));
    i.set_skip_load(state_skip_load);
    i.set_skip_unload(skip_unload);
    i
}

#[test]
fn new_screen_info_defaults() {
    let i = ScreenInfo::new("Menu".to_string(), TypeId::of::<A>(), ScreenIds::default().next(), Tick::new(7));
    assert_eq!(i.name(), "Menu");
    assert_eq!(i.state(), ScreenState::Unloaded);
    assert_eq!(i.type_id(), TypeId::of::<A>());
    assert_eq!(i.screen_id().index(), 0);
    assert!(i.needs_update());
    assert_eq!(i.changed_at(), Tick::new(7));
    assert!(!i.initialized());
    assert_eq!(i.load_strategy(), LoadStrategy::Blocking);
    assert!(i.skip_load());
    assert!(i.skip_unload());
}

#[test]
fn full_lifecycle_states() {
    let mut i = info(false, false);
    i.queue_load(Tick::new(10));
    assert_eq!(i.state(), ScreenState::LoadQueued);
    assert_eq!(i.changed_at(), Tick::new(10));
    i.load(Tick::new(11));
    assert_eq!(i.state(), ScreenState::Loading);
    i.finish_loading(Tick::new(12));
    assert_eq!(i.state(), ScreenState::Ready);
    i.unload(Tick::new(13));
    assert_eq!(i.state(), ScreenState::Unloading);
    i.finish_unloading(Tick::new(14));
    assert_eq!(i.state(), ScreenState::Cleanup);
    i.finish_cleanup(Tick::new(15));
    assert_eq!(i.state(), ScreenState::Unloaded);
    assert_eq!(i.changed_at(), Tick::new(15));
    assert!(i.needs_update());
}

#[test]
fn skipped_lifecycle_states() {
    let mut i = info(true, true);
    i.queue_load(Tick::new(10));
    i.load(Tick::new(11));
    assert_eq!(i.state(), ScreenState::Ready);
    i.unload(Tick::new(12));
    assert_eq!(i.state(), ScreenState::Cleanup);
}

#[test]
fn operations_without_effect() {
    let mut i = info(false, false);
    i.unload(Tick::new(9));
    i.finish_loading(Tick::new(9));
    i.finish_unloading(Tick::new(9));
    i.finish_cleanup(Tick::new(9));
    assert_eq!(i.state(), ScreenState::Unloaded);
    assert_eq!(i.changed_at(), Tick::new(3));
    i.load(Tick::new(10));
    assert_eq!(i.state(), ScreenState::Loading);
    i.queue_load(Tick::new(11));
    i.load(Tick::new(11));
    assert_eq!(i.state(), ScreenState::Loading);
    assert_eq!(i.changed_at(), Tick::new(10));
}

#[test]
fn setters() {
    let mut i = info(true, true);
    i.set_load_strategy(LoadStrategy::Nonblocking);
    assert_eq!(i.load_strategy(), LoadStrategy::Nonblocking);
    assert!(i.skip_load());
    i.set_skip_load(false);
    assert!(!i.skip_load());
    assert!(i.skip_unload());
}

#[test]
fn frame_runs_by_state() {
    let t = TypeId::of::<A>();
    let mut i = info(false, false);
    // First frame of an unloaded screen: marks it initialized, runs nothing.
    let runs = i.update_schedules(true, Tick::new(20));
    assert!(runs.is_empty());
    assert!(i.initialized());
    assert!(!i.needs_update());
    i.queue_load(Tick::new(21));
    // A queued screen announces itself and waits while other screens are busy.
    let runs = i.update_schedules(false, Tick::new(22));
    assert_eq!(runs.len(), 1);
    assert!(matches!(runs[0], ScreenRun::LoadQueued(OnScreenLoadQueued(x)) if x == t));
    assert_eq!(i.state(), ScreenState::LoadQueued);
    // Once all is clear it starts loading.
    let runs = i.update_schedules(true, Tick::new(23));
    assert!(runs.is_empty());
    assert_eq!(i.state(), ScreenState::Loading);
    assert!(i.needs_update());
    let runs = i.update_schedules(true, Tick::new(24));
    assert_eq!(runs.len(), 2);
    assert!(matches!(runs[0], ScreenRun::Scoped(l) if l.kind() == ScreenSchedule::Loading && l.id() == t));
    assert!(matches!(runs[1], ScreenRun::Load(OnScreenLoad(x)) if x == t));
    let runs = i.update_schedules(true, Tick::new(25));
    assert_eq!(runs.len(), 1);
    i.finish_loading(Tick::new(26));
    let runs = i.update_schedules(true, Tick::new(27));
    assert_eq!(runs.len(), 2);
    assert!(matches!(runs[0], ScreenRun::Scoped(l) if l.kind() == ScreenSchedule::Update));
    assert!(matches!(runs[1], ScreenRun::Ready(OnScreenReady(x)) if x == t));
    assert_eq!(i.fixed_schedules().len(), 1);
    i.unload(Tick::new(28));
    let runs = i.update_schedules(true, Tick::new(29));
    assert!(matches!(runs[0], ScreenRun::Scoped(l) if l.kind() == ScreenSchedule::Unloading));
    assert!(matches!(runs[1], ScreenRun::Unload(OnScreenUnload(x)) if x == t));
    assert!(i.fixed_schedules().is_empty());
    i.finish_unloading(Tick::new(30));
    let runs = i.update_schedules(true, Tick::new(31));
    assert_eq!(runs.len(), 1);
    assert!(matches!(runs[0], ScreenRun::Cleanup(OnScreenCleanup(x)) if x == t));
    i.finish_cleanup(Tick::new(32));
    let runs = i.update_schedules(true, Tick::new(33));
    assert_eq!(runs.len(), 1);
    assert!(matches!(runs[0], ScreenRun::Unloaded(OnScreenUnloaded(x)) if x == t));
    assert_eq!(i.changed_at(), Tick::new(33));
    assert!(i.update_schedules(true, Tick::new(34)).is_empty());
}

#[test]
fn nonblocking_loading_runs_update_and_fixed_update() {
    let mut i = info(false, false);
    i.set_load_strategy(LoadStrategy::Nonblocking);
    i.load(Tick::new(1));
    let runs = i.update_schedules(true, Tick::new(2));
    assert_eq!(runs.len(), 3);
    assert!(matches!(runs[2], ScreenRun::Scoped(l) if l.kind() == ScreenSchedule::Update));
    let fixed = i.fixed_schedules();
    assert_eq!(fixed.len(), 1);
    assert!(matches!(fixed[0], ScreenRun::Scoped(l) if l.kind() == ScreenSchedule::FixedUpdate));
    i.set_load_strategy(LoadStrategy::Blocking);
    assert_eq!(i.update_schedules(true, Tick::new(3)).len(), 1);
    assert!(i.fixed_schedules().is_empty());
}

#[test]
fn screen_ids_count_up() {
    let mut ids = ScreenIds::default();
    assert_eq!(ids.peek(), 0);
    assert_eq!(ids.next().index(), 0);
    assert_eq!(ids.next().index(), 1);
    assert_eq!(ids.peek(), 2);
}

#[test]
fn skip_resolution() {
    assert!(resolve_skip(None, Some(0)));
    assert!(!resolve_skip(None, Some(2)));
    assert!(!resolve_skip(None, None));
    assert!(resolve_skip(Some(true), Some(5)));
    assert!(!resolve_skip(Some(false), Some(0)));
}

#[test]
fn register_and_lookup() {
    let mut w = World::new();
    let a = w.add::<A>("A", settings(None, None)).unwrap();
    let b = w.add::<B>("B", settings(Some(false), None)).unwrap();
    assert_eq!(a.index(), 0);
    assert_eq!(b.index(), 1);
    assert_eq!(w.add::<A>("A again", settings(None, None)), None);
    assert_eq!(w.data.len(), 2);
    assert_eq!(w.registry.get(&TypeId::of::<A>()).unwrap(), a);
    assert_eq!(w.registry.get(&TypeId::of::<B>()).unwrap(), b);
    let info_b = w.data.get(b).unwrap();
    assert_eq!(info_b.name(), "B");
    assert!(!info_b.skip_load());
    assert!(info_b.skip_unload());
    assert_eq!(info_b.screen_id(), b);
    assert_eq!(info_b.type_id(), TypeId::of::<B>());
}

#[test]
fn registry_error_names_the_type() {
    let w = World::new();
    match w.registry.get(&TypeId::of::<C>()) {
        Err(ScreenError::NoSuchScreen(s)) => assert_eq!(s, format!("{:?}", TypeId::of::<C>())),
        other => panic!("unexpected {:?}", other),
    }
}

#[test]
fn data_get_errors() {
    let mut w = World::new();
    w.add::<A>("A", settings(None, None));
    let mut ids = ScreenIds::default();
    ids.next();
    let missing = ids.next();
    assert!(matches!(w.data.get(missing), Err(ScreenError::NoSuchScreenId(id)) if id == missing));
    assert!(matches!(w.data.get_mut(missing), Err(ScreenError::NoSuchScreenId(id)) if id == missing));
    let a = w.registry.get(&TypeId::of::<A>()).unwrap();
    w.data.get_mut(a).unwrap().queue_load(Tick::new(2));
    assert_eq!(w.data.get(a).unwrap().state(), ScreenState::LoadQueued);
    assert_eq!(w.data.iter_some().len(), 1);
}

#[test]
fn screens_lookups() {
    let mut w = World::new();
    let a = w.add::<A>("Menu", settings(None, None)).unwrap();
    let b = w.add::<B>("Menu", settings(None, None)).unwrap();
    {
        let screens = Screens::new(&w.registry, &w.data);
        assert_eq!(screens.get_by_name("Menu").unwrap().screen_id(), a);
        assert!(matches!(screens.get_by_name("Nope"), Err(ScreenError::NoSuchScreen(s)) if s == "Nope"));
        assert_eq!(screens.get_by_type_id(&TypeId::of::<B>()).unwrap().screen_id(), b);
        assert!(matches!(screens.get_by_type_id(&TypeId::of::<C>()), Err(ScreenError::NoSuchScreen(_))));
        assert_eq!(screens.get_by_id(b).unwrap().type_id(), TypeId::of::<B>());
    }
    {
        let mut screens = ScreensMut::new(&mut w.registry, &mut w.data);
        screens.get_by_name_mut("Menu").unwrap().queue_load(Tick::new(5));
        screens.get_by_type_id_mut(&TypeId::of::<B>()).unwrap().set_skip_load(false);
        screens.get_by_id_mut(b).unwrap().queue_load(Tick::new(6));
        assert_eq!(screens.get_by_id(a).unwrap().state(), ScreenState::LoadQueued);
        assert_eq!(screens.get_by_type_id(&TypeId::of::<B>()).unwrap().changed_at(), Tick::new(6));
        assert!(screens.get_by_name("Menu").is_ok());
    }
    assert!(!w.data.get(b).unwrap().skip_load());
}

#[test]
fn switch_takes_last_valid_message() {
    let mut w = World::new();
    let a = w.add::<A>("A", settings(Some(false), Some(false))).unwrap();
    let b = w.add::<B>("B", settings(Some(false), Some(false))).unwrap();
    let mut spare = ScreenIds::default();
    spare.next();
    spare.next();
    let invalid = spare.next();
    let mut current = CurrentScreen::default();
    assert_eq!(handle_switch_msg(&Vec::new(), &mut w.data, &mut current, Tick::new(2)), None);
    assert_eq!(handle_switch_msg(&vec![SwitchToScreenMsg(invalid)], &mut w.data, &mut current, Tick::new(2)), None);
    assert_eq!(current.get_id(), None);
    let msgs = vec![SwitchToScreenMsg(b), SwitchToScreenMsg(a), SwitchToScreenMsg(invalid)];
    let changed = handle_switch_msg(&msgs, &mut w.data, &mut current, Tick::new(3));
    assert_eq!(changed, Some(ScreenChanged { from: None, to: a }));
    assert_eq!(current.get_id(), Some(a));
    assert_eq!(w.data.get(a).unwrap().state(), ScreenState::LoadQueued);
    assert_eq!(w.data.get(b).unwrap().state(), ScreenState::Unloaded);
    // Bring `a` up, then switch to `b`: `a` unloads.
    w.data.get_mut(a).unwrap().load(Tick::new(4));
    w.data.get_mut(a).unwrap().finish_loading(Tick::new(5));
    let changed = handle_switch_msg(&vec![SwitchToScreenMsg(b)], &mut w.data, &mut current, Tick::new(6));
    assert_eq!(changed, Some(ScreenChanged { from: Some(a), to: b }));
    assert_eq!(w.data.get(a).unwrap().state(), ScreenState::Unloading);
    assert_eq!(w.data.get(b).unwrap().state(), ScreenState::LoadQueued);
}

#[test]
fn frames_over_all_screens() {
    let mut w = World::new();
    let a = w.add::<A>("A", settings(None, None)).unwrap();
    let b = w.add::<B>("B", settings(None, None)).unwrap();
    let mut current = CurrentScreen::default();
    handle_switch_msg(&vec![SwitchToScreenMsg(a)], &mut w.data, &mut current, Tick::new(2));
    // `a` announces its queueing and, all being clear, loads straight into Ready.
    let runs = run_schedules(&mut w.data, Tick::new(3));
    assert_eq!(runs.len(), 1);
    assert!(matches!(runs[0], ScreenRun::LoadQueued(OnScreenLoadQueued(x)) if x == TypeId::of::<A>()));
    assert_eq!(w.data.get(a).unwrap().state(), ScreenState::Ready);
    assert!(w.data.get(b).unwrap().initialized());
    let runs = run_schedules(&mut w.data, Tick::new(4));
    assert_eq!(runs.len(), 2);
    assert!(matches!(runs[1], ScreenRun::Ready(OnScreenReady(x)) if x == TypeId::of::<A>()));
    let fixed = run_fixed_schedules(&w.data);
    assert_eq!(fixed.len(), 1);
    assert!(matches!(fixed[0], ScreenRun::Scoped(l) if l.kind() == ScreenSchedule::FixedUpdate && l.id() == TypeId::of::<A>()));
    // Switching to `b` while `a` cleans up: `b` waits for the cleanup.
    handle_switch_msg(&vec![SwitchToScreenMsg(b)], &mut w.data, &mut current, Tick::new(5));
    assert_eq!(w.data.get(a).unwrap().state(), ScreenState::Cleanup);
    run_schedules(&mut w.data, Tick::new(6));
    assert_eq!(w.data.get(b).unwrap().state(), ScreenState::LoadQueued);
}

#[test]
fn initial_screen_lookup() {
    let mut w = World::new();
    let a = w.add::<A>("Title", settings(None, None)).unwrap();
    let screens = Screens::new(&w.registry, &w.data);
    assert!(matches!(initial_screen(&InitialScreen::default(), &screens), Ok(None)));
    let found = initial_screen(&InitialScreen::from_name("Title".to_string()), &screens);
    assert!(matches!(found, Ok(Some(SwitchToScreenMsg(id))) if id == a));
    let missing = initial_screen(&InitialScreen::from_name("Other".to_string()), &screens);
    assert!(matches!(missing, Err(ScreenError::NoSuchScreen(s)) if s == "Other"));
    assert_eq!(InitialScreen::from_name("Title".to_string()).name().map(|s| s.as_str()), Some("Title"));
}

#[test]
fn switch_message_for_type() {
    let mut w = World::new();
    let a = w.add::<A>("A", settings(None, None)).unwrap();
    assert_eq!(on_switch_screen(&w.registry, &TypeId::of::<A>()).unwrap(), SwitchToScreenMsg(a));
    assert!(matches!(on_switch_screen(&w.registry, &TypeId::of::<B>()), Err(ScreenError::NoSuchScreen(_))));
}

#[test]
fn scoped_entity_cleanup() {
    assert!(is_screen_scoped(true, true));
    assert!(is_screen_scoped(false, false));
    assert!(!is_screen_scoped(false, true));
    let mut i = info(false, false);
    i.load(Tick::new(1));
    i.unload(Tick::new(2));
    i.finish_unloading(Tick::new(3));
    let despawn = clean_up_scoped_entities(&mut i, &vec![5, 6, 7, 8], &vec![6, 9], Tick::new(4));
    assert_eq!(despawn, vec![5, 7, 8]);
    assert_eq!(i.state(), ScreenState::Unloaded);
    assert_eq!(i.changed_at(), Tick::new(4));
}

#[test]
fn labels_and_events() {
    let l = ScreenScheduleLabel::new::<A>(ScreenSchedule::OnReady);
    assert_eq!(l.kind(), ScreenSchedule::OnReady);
    assert_eq!(l.id(), TypeId::of::<A>());
    assert_ne!(ScreenScheduleLabel::new::<B>(ScreenSchedule::OnReady).id(), l.id());
    let f = ScreenScheduleLabel::from_id(ScreenSchedule::Cleanup, TypeId::of::<B>());
    assert_eq!(f.kind(), ScreenSchedule::Cleanup);
    assert_eq!(f.id(), TypeId::of::<B>());
    assert_eq!(ScreenSchedule::all().len(), 9);
    assert_eq!(ScreenSchedule::all()[0], ScreenSchedule::Update);
    assert_eq!(ScreenSchedule::all()[8], ScreenSchedule::OnUnloaded);
    let _ = switch_to_screen::<A>();
    let _ = finish_loading::<A>();
    let _ = finish_unloading::<A>();
    let id = ScreenIds::default().next();
    assert_eq!(ScreenIdFor::<A>::new(id).id(), id);
    assert_eq!(ScreenState::default(), ScreenState::Unloaded);
    assert_eq!(LoadStrategy::default(), LoadStrategy::Blocking);
    let mut current = CurrentScreen::default();
    current.set(Some(id));
    assert_eq!(current.get_id(), Some(id));
}

#[test]
fn registry_and_data_agree_after_frames() {
    let mut w = World::new();
    let a = w.add::<A>("A", settings(Some(false), Some(false))).unwrap();
    let b = w.add::<B>("B", settings(None, None)).unwrap();
    let mut current = CurrentScreen::default();
    for (k, target) in [a, b, a].iter().enumerate() {
        handle_switch_msg(&vec![SwitchToScreenMsg(*target)], &mut w.data, &mut current, Tick::new(10 + k as u32));
        for f in 0..3u32 {
            run_schedules(&mut w.data, Tick::new(100 + f));
        }
        for (t, id) in [(TypeId::of::<A>(), a), (TypeId::of::<B>(), b)] {
            let found = w.registry.get(&t).unwrap();
            assert_eq!(found, id);
            let info = w.data.get(found).unwrap();
            assert_eq!(info.type_id(), t);
            assert_eq!(info.screen_id(), id);
        }
    }
    assert_eq!(w.data.get(b).unwrap().name(), "B");
}

#[test]
fn switch_takes_queued_screen_out_of_the_queue() {
    let mut w = World::new();
    let a = w.add::<A>("A", settings(Some(false), Some(false))).unwrap();
    let b = w.add::<B>("B", settings(Some(false), Some(false))).unwrap();
    let c = w.add::<C>("C", settings(Some(false), Some(false))).unwrap();
    let mut current = CurrentScreen::default();
    // `c` is up, so `a` waits in the queue.
    w.data.get_mut(c).unwrap().load(Tick::new(1));
    handle_switch_msg(&vec![SwitchToScreenMsg(a)], &mut w.data, &mut current, Tick::new(2));
    assert_eq!(w.data.get(a).unwrap().state(), ScreenState::LoadQueued);
    assert_eq!(w.data.get(c).unwrap().state(), ScreenState::Unloading);
    // Switching on to `b` takes `a` out of the queue.
    handle_switch_msg(&vec![SwitchToScreenMsg(b)], &mut w.data, &mut current, Tick::new(3));
    assert_eq!(w.data.get(a).unwrap().state(), ScreenState::Unloaded);
    assert_eq!(w.data.get(a).unwrap().changed_at(), Tick::new(3));
    assert_eq!(w.data.get(b).unwrap().state(), ScreenState::LoadQueued);
    assert_eq!(w.data.get(c).unwrap().state(), ScreenState::Unloading);
    assert_eq!(current.get_id(), Some(b));
    // Once `c` is done, only `b` loads.
    w.data.get_mut(c).unwrap().finish_unloading(Tick::new(4));
    w.data.get_mut(c).unwrap().finish_cleanup(Tick::new(5));
    run_schedules(&mut w.data, Tick::new(6));
    assert_eq!(w.data.get(b).unwrap().state(), ScreenState::Loading);
    assert_eq!(w.data.get(a).unwrap().state(), ScreenState::Unloaded);
}

#[test]
fn unload_of_queued_screen() {
    let mut i = info(false, false);
    i.queue_load(Tick::new(4));
    i.unload(Tick::new(5));
    assert_eq!(i.state(), ScreenState::Unloaded);
    assert!(i.needs_update());
    assert_eq!(i.changed_at(), Tick::new(5));
}

#[test]
fn ids_of_held_screens() {
    let mut w = World::new();
    assert!(w.data.some_ids().is_empty());
    let a = w.add::<A>("A", settings(None, None)).unwrap();
    let b = w.add::<B>("B", settings(None, None)).unwrap();
    assert_eq!(w.data.some_ids(), vec![a, b]);
    for id in w.data.some_ids() {
        w.data.get_mut(id).unwrap().queue_load(Tick::new(9));
    }
    assert_eq!(w.data.get(a).unwrap().state(), ScreenState::LoadQueued);
    assert_eq!(w.data.get(b).unwrap().state(), ScreenState::LoadQueued);
}

#[test]
fn transition_kinds_and_states() {
    let t = TypeId::of::<A>();
    assert!(matches!(transition_run(ScreenSchedule::OnLoad, t), Some(ScreenRun::Load(OnScreenLoad(x))) if x == t));
    assert!(matches!(transition_run(ScreenSchedule::OnReady, t), Some(ScreenRun::Ready(OnScreenReady(x))) if x == t));
    assert!(matches!(transition_run(ScreenSchedule::OnUnload, t), Some(ScreenRun::Unload(OnScreenUnload(x))) if x == t));
    assert!(matches!(transition_run(ScreenSchedule::OnUnloaded, t), Some(ScreenRun::Unloaded(OnScreenUnloaded(x))) if x == t));
    assert!(transition_run(ScreenSchedule::Update, t).is_none());
    assert!(transition_run(ScreenSchedule::Loading, t).is_none());
    let i = info(false, false);
    assert!(i.has_state(ScreenState::Unloaded));
    assert!(!i.has_state(ScreenState::Ready));
}

#[test]
fn screen_ids_hand_out_zero_to_k() {
    let mut ids = ScreenIds::default();
    let handed: Vec<usize> = (0..50).map(|_| ids.next().index()).collect();
    assert_eq!(handed, (0..50).collect::<Vec<usize>>());
    assert_eq!(ids.peek(), 50);
    assert_eq!(ids.next().index(), 50);
}
