use vstd::prelude::*;

verus! {

/// The state of a plugin.
#[derive(Debug, Clone, Copy, PartialEq, Eq, Structural)]
pub enum PluginState {
    Installed,
    Resolving,
    Resolved,
    Starting,
    Active,
    Stopping,
    Refreshing,
    Uninstalling,
    Uninstalled,
}

/// The name under which a state is searched for.
pub open spec fn state_name(state: PluginState) -> Seq<char> {
    match state {
        PluginState::Installed => "Installed"@,
        PluginState::Resolving => "Resolving"@,
        PluginState::Resolved => "Resolved"@,
        PluginState::Starting => "Starting"@,
        PluginState::Active => "Active"@,
        PluginState::Stopping => "Stopping"@,
        PluginState::Refreshing => "Refreshing"@,
        PluginState::Uninstalling => "Uninstalling"@,
        PluginState::Uninstalled => "Uninstalled"@,
    }
}

/// What the plugin container manager tells about a plugin: its id, its name
/// and its state, where it knows them.
#[derive(Debug)]
pub struct PluginRecord {
    pub id: u128,
    pub name: Option<String>,
    pub state: Option<PluginState>,
}

/// The criteria of a search for plugins; a criterion that is not given lets
/// every plugin through. The stem is given as the id that the plugin
/// container manager finds for it: `Some(None)` where it finds none.
#[derive(Debug)]
pub struct PluginFilter {
    pub id: Option<u128>,
    pub stem_id: Option<Option<u128>>,
    pub name: Option<String>,
    pub state: Option<String>,
}

/// True when the plugin meets every criterion that is given.
pub open spec fn plugin_matches(p: PluginRecord, f: PluginFilter) -> bool {
    &&& (match f.id {
        Some(id) => p.id == id,
        None => true,
    })
    &&& (match f.stem_id {
        Some(Some(id)) => p.id == id,
        Some(None) => false,
        None => true,
    })
    &&& (match f.name {
        Some(name) => match p.name {
            Some(n) => n@ == name@,
            None => false,
        },
        None => true,
    })
    &&& (match f.state {
        Some(state) => match p.state {
            Some(s) => state_name(s) == state@,
            None => false,
        },
        None => true,
    })
}

/// Returns true when the state goes by the given name.
fn state_matches(state: PluginState, name: &String) -> (r: bool)
    ensures
        r == (state_name(state) == name@),
{
    let s: &str = match state {
        PluginState::Installed => "Installed",
        PluginState::Resolving => "Resolving",
        PluginState::Resolved => "Resolved",
        PluginState::Starting => "Starting",
        PluginState::Active => "Active",
        PluginState::Stopping => "Stopping",
        PluginState::Refreshing => "Refreshing",
        PluginState::Uninstalling => "Uninstalling",
        PluginState::Uninstalled => "Uninstalled",
    };
    s.to_owned() == *name
}

/// Returns true when the plugin meets every criterion that is given.
pub fn matches(p: &PluginRecord, f: &PluginFilter) -> (r: bool)
    ensures
        r == plugin_matches(*p, *f),
{
    let by_id = match f.id {
        Some(id) => p.id == id,
        None => true,
    };
    let by_stem = match f.stem_id {
        Some(Some(id)) => p.id == id,
        Some(None) => false,
        None => true,
    };
    let by_name = match &f.name {
        Some(name) => match &p.name {
            Some(n) => *n == *name,
            None => false,
        },
        None => true,
    };
    let by_state = match &f.state {
        Some(state) => match p.state {
            Some(s) => state_matches(s, state),
            None => false,
        },
        None => true,
    };
    by_id && by_stem && by_name && by_state
}

/// Returns the ids of the plugins that meet every criterion that is given,
/// in the order of the plugins.
pub fn filter_plugins(plugins: &Vec<PluginRecord>, f: &PluginFilter) -> (r: Vec<u128>)
    ensures
        r@ == plugins@.filter(|p: PluginRecord| plugin_matches(p, *f)).map_values(|p: PluginRecord| p.id),
{
    let ghost pred = |p: PluginRecord| plugin_matches(p, *f);
    let mut out: Vec<u128> = Vec::new();
    let mut i: usize = 0;
    assert(plugins@.take(0).filter(pred) =~= Seq::<PluginRecord>::empty()) by {
        reveal(Seq::filter);
    }
    assert(out@ =~= plugins@.take(0).filter(pred).map_values(|p: PluginRecord| p.id));
    while i < plugins.len()
        invariant
            i <= plugins.len(),
            pred == (|p: PluginRecord| plugin_matches(p, *f)),
            out@ == plugins@.take(i as int).filter(pred).map_values(|p: PluginRecord| p.id),
        decreases plugins.len() - i,
    {
        let ghost before = plugins@.take(i as int).filter(pred);
        proof {
            reveal(Seq::filter);
            assert(plugins@.take(i + 1).drop_last() =~= plugins@.take(i as int));
            assert(plugins@.take(i + 1).last() == plugins@[i as int]);
        }
        if matches(&plugins[i], f) {
            out.push(plugins[i].id);
            assert(out@ =~= before.push(plugins@[i as int]).map_values(|p: PluginRecord| p.id));
        }
        i = i + 1;
    }
    assert(plugins@.take(plugins.len() as int) =~= plugins@);
    out
}

} // verus!
