use microprofile::{Call, Color, Lifecycle, Name, NameError, Profiler, TokenKind};

fn name(text: &str) -> Name {
    Name::new(text).unwrap()
}

#[test]
fn a_category_asks_nothing_of_the_backend_and_keeps_its_name() {
    let mut state = Lifecycle::new();
    let (profiler, _) = Profiler::global(&mut state).unwrap();
    let category = profiler.define_category("render").unwrap();
    assert_eq!(category.name(), &name("render"));
}

#[test]
fn a_category_name_with_a_nul_byte_is_rejected() {
    let mut state = Lifecycle::new();
    let (profiler, _) = Profiler::global(&mut state).unwrap();
    assert_eq!(profiler.define_category("ren\0der").err(), Some(NameError { position: 3 }));
}

#[test]
fn enabling_and_disabling_a_category_are_two_calls() {
    let mut state = Lifecycle::new();
    let (profiler, _) = Profiler::global(&mut state).unwrap();
    let category = profiler.define_category("render").unwrap();
    assert_eq!(category.enable(true), Call::EnableCategory { name: name("render") });
    assert_eq!(category.enable(false), Call::DisableCategory { name: name("render") });
}

#[test]
fn defining_a_group_registers_it_with_category_and_packed_color() {
    let mut state = Lifecycle::new();
    let (profiler, _) = Profiler::global(&mut state).unwrap();
    let category = profiler.define_category("render").unwrap();
    let (group, call) = category.define_group("cull", Color(40, 0, 250)).unwrap();
    assert_eq!(
        call,
        Call::RegisterGroup { name: name("cull"), category: name("render"), color: 0x2800fa }
    );
    assert_eq!(group.name(), &name("cull"));
    assert_eq!(group.category(), &name("render"));
}

#[test]
fn a_group_name_with_a_nul_byte_is_rejected() {
    let mut state = Lifecycle::new();
    let (profiler, _) = Profiler::global(&mut state).unwrap();
    let category = profiler.define_category("render").unwrap();
    assert_eq!(
        category.define_group("\0cull", Color(0, 0, 0)).err(),
        Some(NameError { position: 0 })
    );
}

#[test]
fn groups_of_one_name_and_two_colors_register_both_colors() {
    let mut state = Lifecycle::new();
    let (profiler, _) = Profiler::global(&mut state).unwrap();
    let category = profiler.define_category("render").unwrap();
    let (_, red) = category.define_group("cull", Color(255, 0, 0)).unwrap();
    let (_, blue) = category.define_group("cull", Color(0, 0, 255)).unwrap();
    assert_eq!(
        red,
        Call::RegisterGroup { name: name("cull"), category: name("render"), color: 0xff0000 }
    );
    assert_eq!(
        blue,
        Call::RegisterGroup { name: name("cull"), category: name("render"), color: 0x0000ff }
    );
}

#[test]
fn a_cpu_token_is_asked_for_by_group_name_color_and_kind() {
    let mut state = Lifecycle::new();
    let (profiler, _) = Profiler::global(&mut state).unwrap();
    let category = profiler.define_category("render").unwrap();
    let (group, _) = category.define_group("cull", Color(40, 0, 250)).unwrap();
    assert_eq!(
        group.get_cpu_scope_call("events", Color(250, 0, 100)),
        Ok(Call::GetToken {
            group: name("cull"),
            name: name("events"),
            color: 0xfa0064,
            kind: TokenKind::Cpu,
        })
    );
}

#[test]
fn a_gpu_token_differs_from_a_cpu_token_in_its_kind_only() {
    let mut state = Lifecycle::new();
    let (profiler, _) = Profiler::global(&mut state).unwrap();
    let category = profiler.define_category("render").unwrap();
    let (group, _) = category.define_group("cull", Color(40, 0, 250)).unwrap();
    assert_eq!(
        group.get_gpu_scope_call("events", Color(250, 0, 100)),
        Ok(Call::GetToken {
            group: name("cull"),
            name: name("events"),
            color: 0xfa0064,
            kind: TokenKind::Gpu,
        })
    );
}

#[test]
fn a_scope_name_with_a_nul_byte_is_rejected() {
    let mut state = Lifecycle::new();
    let (profiler, _) = Profiler::global(&mut state).unwrap();
    let category = profiler.define_category("render").unwrap();
    let (group, _) = category.define_group("cull", Color(40, 0, 250)).unwrap();
    assert_eq!(
        group.get_cpu_scope_call("eve\0nts", Color(0, 0, 0)),
        Err(NameError { position: 3 })
    );
    assert_eq!(
        group.get_gpu_scope_call("events\0", Color(0, 0, 0)),
        Err(NameError { position: 6 })
    );
}

#[test]
fn asking_twice_for_one_scope_makes_the_same_call_twice() {
    let mut state = Lifecycle::new();
    let (profiler, _) = Profiler::global(&mut state).unwrap();
    let category = profiler.define_category("render").unwrap();
    let (group, _) = category.define_group("cull", Color(40, 0, 250)).unwrap();
    let first = group.get_cpu_scope_call("draw", Color(200, 200, 10)).unwrap();
    let second = group.get_cpu_scope_call("draw", Color(200, 200, 10)).unwrap();
    assert_eq!(first, second);
    assert_eq!(first.clone(), first);
}

#[test]
fn two_groups_of_one_name_route_a_scope_alike() {
    let mut state = Lifecycle::new();
    let (profiler, _) = Profiler::global(&mut state).unwrap();
    let category = profiler.define_category("render").unwrap();
    let (first, _) = category.define_group("cull", Color(40, 0, 250)).unwrap();
    let (second, _) = category.define_group("cull", Color(0, 9, 0)).unwrap();
    let from_first = first.get_cpu_scope_call("draw", Color(1, 1, 1)).unwrap();
    let from_second = second.get_cpu_scope_call("draw", Color(2, 2, 2)).unwrap();
    match (from_first, from_second) {
        (
            Call::GetToken { group: a, name: b, kind: c, color: d },
            Call::GetToken { group: e, name: f, kind: g, color: h },
        ) => {
            assert_eq!((a, b, c), (e, f, g));
            assert_eq!((d, h), (0x010101, 0x020202));
        }
        other => panic!("not two token requests: {:?}", other),
    }
}
