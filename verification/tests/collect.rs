use fst::{clib, end_time, scope_path, Hier, Scope, ScopeType, Var, VarDir, VarFilter, VarType, Walk};

fn scope(name: &str) -> Hier {
    Hier::Scope(Scope { typ: ScopeType::VcdModule, name: name.to_string(), component: String::new() })
}

fn var(name: &str, typ: VarType, handle: u32, alias: bool) -> Hier {
    Hier::Var(Var {
        typ,
        direction: VarDir::Implicit,
        name: name.to_string(),
        length: 4,
        handle,
        is_alias: alias,
    })
}

fn design() -> Vec<Hier> {
    vec![
        scope("top"),
        var("clk", VarType::VcdWire, 1, false),
        var("width", VarType::VcdParameter, 2, false),
        var("clk_alias", VarType::VcdWire, 1, true),
        scope("sub"),
        var("x", VarType::VcdReg, 3, false),
        Hier::Upscope,
        var("data", VarType::VcdReg, 4, false),
        Hier::Upscope,
    ]
}

fn names(v: &[String]) -> Vec<&str> {
    v.iter().map(|s| s.as_str()).collect()
}

#[test]
fn scope_paths_split_at_dots() {
    assert_eq!(scope_path("top.cpu.alu"), vec!["top", "cpu", "alu"]);
    assert_eq!(scope_path("top"), vec!["top"]);
    assert_eq!(scope_path(""), vec![""]);
    assert_eq!(scope_path("a..b."), vec!["a", "", "b", ""]);
}

#[test]
fn filter_by_scope_and_parameters() {
    let f = VarFilter { scope: Some(vec!["top".to_string()]), include_params: false };
    assert!(f.accepts(&vec!["top".to_string()], VarType::VcdWire));
    assert!(!f.accepts(&vec!["top".to_string()], VarType::VcdParameter));
    assert!(!f.accepts(&vec!["top".to_string(), "sub".to_string()], VarType::VcdWire));
    assert!(!f.accepts(&vec![], VarType::VcdWire));
    let all = VarFilter { scope: None, include_params: true };
    assert!(all.accepts(&vec!["a".to_string()], VarType::VcdParameter));
}

#[test]
fn walk_keeps_scope_path() {
    let f = VarFilter { scope: None, include_params: false };
    let mut w = Walk::new();
    w.visit(&scope("top"), &f);
    w.visit(&scope("sub"), &f);
    assert_eq!(names(&w.scope), vec!["top", "sub"]);
    w.visit(&Hier::Upscope, &f);
    assert_eq!(names(&w.scope), vec!["top"]);
    w.visit(&Hier::Upscope, &f);
    w.visit(&Hier::Upscope, &f);
    assert!(w.scope.is_empty());
}

#[test]
fn walk_collects_kept_variables_and_aliases() {
    let f = VarFilter { scope: None, include_params: false };
    let mut w = Walk::new();
    for h in design() {
        w.visit(&h, &f);
    }
    let mut keys = w.limit_keys();
    keys.sort();
    assert_eq!(keys, vec![1, 3, 4]);
    assert_eq!(names(&w.vars[&3].name), vec!["top", "sub", "x"]);
    assert_eq!(names(&w.vars[&4].name), vec!["top", "data"]);
    assert_eq!(w.vars[&1].typ, VarType::VcdWire);
    assert_eq!(w.vars[&1].size, 4);
    assert_eq!(w.aliases.len(), 1);
    assert_eq!(names(&w.aliases[0].0), vec!["top", "clk_alias"]);
    assert_eq!(w.aliases[0].1, 1);
}

#[test]
fn end_time_is_limited_by_the_file() {
    assert_eq!(end_time(None, 50), 50);
    assert_eq!(end_time(Some(20), 50), 20);
    assert_eq!(end_time(Some(80), 50), 50);
}

#[test]
fn clib_collects_values_inside_the_window() {
    let f = VarFilter { scope: Some(vec!["top".to_string()]), include_params: false };
    let blocks = vec![
        (0u64, 1u32, "0".to_string()),
        (2, 4, "1010".to_string()),
        (5, 1, "1".to_string()),
        (5, 4, "0011".to_string()),
        (8, 1, "0".to_string()),
        (10, 1, "1".to_string()),
    ];
    let fst = clib(&design(), &f, Some(8), 0, 20, &blocks);
    let mut keys: Vec<u32> = fst.vars.keys().copied().collect();
    keys.sort();
    assert_eq!(keys, vec![1, 4]);
    assert_eq!(fst.vars[&1].data, vec![(0, "0".to_string()), (5, "1".to_string())]);
    assert_eq!(fst.vars[&4].data, vec![(2, "1010".to_string()), (5, "0011".to_string())]);
    assert_eq!(fst.crit_time, vec![0, 2, 5, 8]);
}

#[test]
fn clib_marks_window_ends_without_changes() {
    let f = VarFilter { scope: None, include_params: true };
    let fst = clib(&design(), &f, None, 3, 7, &vec![]);
    assert_eq!(fst.crit_time, vec![3, 7]);
    assert_eq!(fst.vars.len(), 4);
    assert!(fst.vars.values().all(|t| t.data.is_empty()));
}

#[test]
fn finish_sorts_and_merges_times() {
    let f = VarFilter { scope: None, include_params: true };
    let mut w = Walk::new();
    for h in design() {
        w.visit(&h, &f);
    }
    let blocks = vec![
        (6u64, 3u32, "1".to_string()),
        (4, 1, "1".to_string()),
        (6, 1, "0".to_string()),
        (1, 2, "7".to_string()),
    ];
    let fst = w.finish(1, 9, &blocks);
    assert_eq!(fst.crit_time, vec![1, 4, 6, 9]);
    assert_eq!(fst.vars[&1].data, vec![(4, "1".to_string()), (6, "0".to_string())]);
    assert_eq!(fst.vars[&2].data, vec![(1, "7".to_string())]);
}

#[test]
fn limit_past_the_end_is_no_limit() {
    let f = VarFilter { scope: None, include_params: false };
    let blocks = vec![
        (1u64, 1u32, "1".to_string()),
        (4, 4, "0110".to_string()),
        (9, 3, "x".to_string()),
        (12, 1, "0".to_string()),
    ];
    let limited = clib(&design(), &f, Some(12), 0, 12, &blocks);
    let past = clib(&design(), &f, Some(40), 0, 12, &blocks);
    let free = clib(&design(), &f, None, 0, 12, &blocks);
    assert_eq!(past.crit_time, free.crit_time);
    assert_eq!(limited.crit_time, free.crit_time);
    assert_eq!(free.crit_time, vec![0, 1, 4, 9, 12]);
    let mut keys: Vec<u32> = free.vars.keys().copied().collect();
    keys.sort();
    for k in keys {
        assert_eq!(past.vars[&k].name, free.vars[&k].name);
        assert_eq!(past.vars[&k].typ, free.vars[&k].typ);
        assert_eq!(past.vars[&k].size, free.vars[&k].size);
        assert_eq!(past.vars[&k].data, free.vars[&k].data);
    }
    assert_eq!(past.vars.len(), free.vars.len());
}
