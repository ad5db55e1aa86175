//! Requests on plugins, their servers, and the models.

use crate::ipc::protocol::{IPCResponse, PluginInfo};
use crate::llm::orchestrator::Launch;
use crate::llm::types::{text_view, LLMConfig, LLMConfigV};
use crate::text;
use vstd::prelude::*;

verus! {

/// A plugin as it is registered. Its type and its state stand by their names.
#[derive(Debug)]
pub struct Plugin {
    pub id: String,
    pub name: String,
    pub description: Option<String>,
    pub plugin_type: String,
    pub repo_url: String,
    pub owner: String,
    pub repo: String,
    pub stars: i64,
    pub entry_point: Option<String>,
    pub install_path: Option<String>,
    pub status: String,
    pub enabled: bool,
    pub config_json: Option<String>,
    pub error_msg: Option<String>,
}

impl Plugin {
    /// A copy of the plugin.
    pub fn copy(&self) -> (r: Self)
        ensures
            r == *self,
    {
        Plugin {
            id: self.id.clone(),
            name: self.name.clone(),
            description: self.description.clone(),
            plugin_type: self.plugin_type.clone(),
            repo_url: self.repo_url.clone(),
            owner: self.owner.clone(),
            repo: self.repo.clone(),
            stars: self.stars,
            entry_point: self.entry_point.clone(),
            install_path: self.install_path.clone(),
            status: self.status.clone(),
            enabled: self.enabled,
            config_json: self.config_json.clone(),
            error_msg: self.error_msg.clone(),
        }
    }
}

/// A plugin as the user interface sees it.
pub open spec fn info(p: Plugin, running: bool) -> PluginInfo {
    PluginInfo {
        id: p.id,
        name: p.name,
        description: p.description,
        plugin_type: p.plugin_type,
        repo_url: p.repo_url,
        owner: p.owner,
        repo: p.repo,
        stars: p.stars,
        entry_point: p.entry_point,
        install_path: p.install_path,
        status: p.status,
        enabled: p.enabled,
        running,
    }
}

/// A plugin as the user interface sees it.
pub fn plugin_to_info(p: &Plugin, running: bool) -> (r: PluginInfo)
    ensures
        r == info(*p, running),
{
    PluginInfo {
        id: p.id.clone(),
        name: p.name.clone(),
        description: p.description.clone(),
        plugin_type: p.plugin_type.clone(),
        repo_url: p.repo_url.clone(),
        owner: p.owner.clone(),
        repo: p.repo.clone(),
        stars: p.stars,
        entry_point: p.entry_point.clone(),
        install_path: p.install_path.clone(),
        status: p.status.clone(),
        enabled: p.enabled,
        running,
    }
}

/// The plugins that a search tells: those that are registered already as they
/// are registered, the others as they were found.
pub open spec fn found_infos(found: Seq<Plugin>, known: Seq<Option<Plugin>>) -> Seq<PluginInfo> {
    Seq::new(
        found.len(),
        |i: int|
            info(
                match known[i] {
                    Some(p) => p,
                    None => found[i],
                },
                false,
            ),
    )
}

/// The answer to a search for plugins, from what was found and what of it is
/// registered already. Those that are not are then registered.
pub fn handle_search_plugins(id: &str, found: &Vec<Plugin>, known: &Vec<Option<Plugin>>) -> (r:
    IPCResponse)
    requires
        found@.len() == known@.len(),
    ensures
        r matches IPCResponse::PluginList { id: i, plugins } && i@ == id@ && plugins@
            == found_infos(found@, known@),
{
    let mut plugins: Vec<PluginInfo> = Vec::new();
    for i in 0..found.len()
        invariant
            found@.len() == known@.len(),
            plugins@ == found_infos(found@, known@).take(i as int),
    {
        let p = match &known[i] {
            Some(p) => p,
            None => &found[i],
        };
        let info = plugin_to_info(p, false);
        plugins.push(info);
        assert(found_infos(found@, known@).take(i + 1) =~= found_infos(found@, known@).take(
            i as int,
        ).push(info));
    }
    assert(found_infos(found@, known@).take(found@.len() as int) =~= found_infos(
        found@,
        known@,
    ));
    IPCResponse::PluginList { id: id.to_owned(), plugins }
}

/// The plugins of a list, with those marked that run.
pub open spec fn listed_infos(plugins: Seq<Plugin>, running: Seq<Seq<char>>) -> Seq<PluginInfo> {
    plugins.map_values(|p: Plugin| info(p, running.contains(p.id@)))
}

/// The answer to a question for the plugins.
pub fn handle_list_plugins(id: &str, registered: &Vec<Plugin>, running_ids: &Vec<String>) -> (r:
    IPCResponse)
    ensures
        r matches IPCResponse::PluginList { id: i, plugins } && i@ == id@ && plugins@
            == listed_infos(registered@, text::views(running_ids@)),
{
    let ghost want = listed_infos(registered@, text::views(running_ids@));
    let mut plugins: Vec<PluginInfo> = Vec::new();
    for i in 0..registered.len()
        invariant
            want == listed_infos(registered@, text::views(running_ids@)),
            plugins@ == want.take(i as int),
    {
        let p = &registered[i];
        let info = plugin_to_info(p, text::holds(running_ids, &p.id));
        plugins.push(info);
        assert(want[i as int] == info);
        assert(want.take(i + 1) =~= want.take(i as int).push(info));
    }
    assert(want.take(want.len() as int) =~= want);
    IPCResponse::PluginList { id: id.to_owned(), plugins }
}

/// The answer to something that was done with a plugin.
pub open spec fn is_action(
    r: IPCResponse,
    id: Seq<char>,
    plugin_id: Seq<char>,
    action: Seq<char>,
    success: bool,
    message: Seq<char>,
) -> bool {
    r matches IPCResponse::PluginAction {
        id: i,
        plugin_id: p,
        action: a,
        success: s,
        message: m,
    } && i@ == id && p@ == plugin_id && a@ == action && s == success && m@ == message
}

fn plugin_action(id: &str, plugin_id: &str, action: &str, success: bool, message: String) -> (r:
    IPCResponse)
    ensures
        is_action(r, id@, plugin_id@, action@, success, message@),
{
    IPCResponse::PluginAction {
        id: id.to_owned(),
        plugin_id: plugin_id.to_owned(),
        action: action.to_owned(),
        success,
        message,
    }
}

// ---------------------------------------------------------------------------
// Installing
// ---------------------------------------------------------------------------

/// What a request says of a plugin that is to be installed.
#[derive(Debug)]
pub struct Offer {
    pub name: Option<String>,
    pub description: Option<String>,
    pub plugin_type: Option<String>,
    pub repo_url: Option<String>,
    pub owner: Option<String>,
    pub repo: Option<String>,
    pub stars: Option<i64>,
}

/// The part of an id in front of the first slash.
pub open spec fn id_owner(id: Seq<char>) -> Seq<char> {
    id.take(text::index_of(id, '/') as int)
}

/// The part of an id behind the first slash; empty where there is none.
pub open spec fn id_repo(id: Seq<char>) -> Seq<char> {
    let i = text::index_of(id, '/');
    if i < id.len() {
        id.skip(i as int + 1)
    } else {
        Seq::empty()
    }
}

/// A text that is said and not empty, or another one.
pub open spec fn said_or(t: Option<Seq<char>>, other: Seq<char>) -> Seq<char> {
    match t {
        Some(s) => if s.len() == 0 {
            other
        } else {
            s
        },
        None => other,
    }
}

/// The owner and the repository of a plugin: as they are said, or as its id has
/// them.
pub fn repo_of(plugin_id: &str, owner: &Option<String>, repo: &Option<String>) -> (r: (
    String,
    String,
))
    ensures
        r.0@ == said_or(text_view(*owner), id_owner(plugin_id@)),
        r.1@ == said_or(text_view(*repo), id_repo(plugin_id@)),
{
    let v = text::to_chars(plugin_id);
    let n: usize = v.len();
    proof {
        text::index_of_bounds(v@, '/');
        assert(v@.skip(0) =~= v@);
    }
    let i: usize = text::find_char(&v, 0, '/');
    assert(i == text::index_of(v@, '/'));
    let first = text::from_range(&v, 0, i);
    assert(first@ =~= id_owner(plugin_id@));
    let rest = if i < n {
        text::from_range(&v, i + 1, n)
    } else {
        String::new()
    };
    assert(rest@ =~= id_repo(plugin_id@));
    let o = match owner {
        Some(s) => if s.as_str().is_empty() {
            first
        } else {
            s.clone()
        },
        None => first,
    };
    let p = match repo {
        Some(s) => if s.as_str().is_empty() {
            rest
        } else {
            s.clone()
        },
        None => rest,
    };
    (o, p)
}

/// A plugin that is registered from what a request says of it.
pub open spec fn is_offered(
    p: Plugin,
    plugin_id: Seq<char>,
    offer: Offer,
    available: Seq<char>,
) -> bool {
    &&& p.id@ == plugin_id
    &&& text_view(Some(p.name)) == text_view(offer.name)
    &&& p.description == offer.description
    &&& p.plugin_type@ == (match offer.plugin_type {
        Some(t) => t@,
        None => "mcp"@,
    })
    &&& text_view(Some(p.repo_url)) == text_view(offer.repo_url)
    &&& p.owner@ == said_or(text_view(offer.owner), id_owner(plugin_id))
    &&& p.repo@ == said_or(text_view(offer.repo), id_repo(plugin_id))
    &&& p.stars == (match offer.stars {
        Some(n) => n,
        None => 0,
    })
    &&& p.entry_point is None
    &&& p.install_path is None
    &&& p.status@ == available
    &&& !p.enabled
    &&& p.config_json is None
    &&& p.error_msg is None
}

/// How a request to install a plugin is met.
#[derive(Debug)]
pub struct Install {
    /// The plugin that is installed, if there is one.
    pub plugin: Option<Plugin>,
    /// Whether it is registered first.
    pub register: bool,
    pub response: IPCResponse,
}

/// How a request to install a plugin is met: one that is registered is
/// installed; one that is not is registered first, if its name and its address
/// are said. `available` is the name of the state of a plugin that is not
/// installed.
pub fn handle_install_plugin(
    id: &str,
    plugin_id: &str,
    known: Option<Plugin>,
    offer: Offer,
    available: &str,
) -> (r: Install)
    ensures
        match known {
            Some(k) => {
                &&& r.plugin == Some(k)
                &&& !r.register
                &&& is_action(
                    r.response,
                    id@,
                    plugin_id@,
                    "install"@,
                    true,
                    "Installing '"@ + k.name@ + "' in background…"@,
                )
            },
            None => if offer.repo_url is Some && offer.name is Some {
                &&& r.plugin matches Some(p) && is_offered(p, plugin_id@, offer, available@)
                &&& r.register
                &&& is_action(
                    r.response,
                    id@,
                    plugin_id@,
                    "install"@,
                    true,
                    "Installing '"@ + offer.name->0@ + "' in background…"@,
                )
            } else {
                &&& r.plugin is None
                &&& !r.register
                &&& is_action(
                    r.response,
                    id@,
                    plugin_id@,
                    "install"@,
                    false,
                    "Plugin '"@ + plugin_id@ + "' not found in registry"@,
                )
            },
        },
{
    let register = known.is_none();
    let plugin = match known {
        Some(k) => k,
        None => {
            let (owner, repo) = repo_of(plugin_id, &offer.owner, &offer.repo);
            match (offer.repo_url, offer.name) {
                (Some(repo_url), Some(name)) => Plugin {
                    id: plugin_id.to_owned(),
                    name,
                    description: offer.description,
                    plugin_type: match offer.plugin_type {
                        Some(t) => t,
                        None => "mcp".to_owned(),
                    },
                    repo_url,
                    owner,
                    repo,
                    stars: match offer.stars {
                        Some(n) => n,
                        None => 0,
                    },
                    entry_point: None,
                    install_path: None,
                    status: available.to_owned(),
                    enabled: false,
                    config_json: None,
                    error_msg: None,
                },
                _ => {
                    let mut m = "Plugin '".to_owned();
                    m.append(plugin_id);
                    m.append("' not found in registry");
                    return Install {
                        plugin: None,
                        register: false,
                        response: plugin_action(id, plugin_id, "install", false, m),
                    };
                },
            }
        },
    };
    let mut m = "Installing '".to_owned();
    m.append(&plugin.name);
    m.append("' in background…");
    let response = plugin_action(id, plugin_id, "install", true, m);
    Install { plugin: Some(plugin), register, response }
}

/// The answer to a switching of a plugin, by whether it is registered.
pub fn handle_set_plugin_enabled(id: &str, plugin_id: &str, known: bool, enabled: bool) -> (r:
    IPCResponse)
    ensures
        if known {
            is_action(
                r,
                id@,
                plugin_id@,
                "set_enabled"@,
                true,
                "Plugin "@ + (if enabled {
                    "enabled"@
                } else {
                    "disabled"@
                }),
            )
        } else {
            is_action(r, id@, plugin_id@, "set_enabled"@, false, "Plugin not found"@)
        },
{
    if !known {
        return plugin_action(id, plugin_id, "set_enabled", false, "Plugin not found".to_owned());
    }
    let mut m = "Plugin ".to_owned();
    m.append(
        if enabled {
            "enabled"
        } else {
            "disabled"
        },
    );
    plugin_action(id, plugin_id, "set_enabled", true, m)
}

/// The answer to a removal of a plugin, by its name if it is registered.
pub fn handle_uninstall_plugin(id: &str, plugin_id: &str, name: &Option<String>) -> (r: IPCResponse)
    ensures
        match *name {
            Some(n) => is_action(
                r,
                id@,
                plugin_id@,
                "uninstall"@,
                true,
                "Uninstalling '"@ + n@ + "'…"@,
            ),
            None => is_action(r, id@, plugin_id@, "uninstall"@, false, "Plugin not found"@),
        },
{
    match name {
        Some(n) => {
            let mut m = "Uninstalling '".to_owned();
            m.append(n);
            m.append("'…");
            plugin_action(id, plugin_id, "uninstall", true, m)
        },
        None => plugin_action(id, plugin_id, "uninstall", false, "Plugin not found".to_owned()),
    }
}

// ---------------------------------------------------------------------------
// Servers of plugins
// ---------------------------------------------------------------------------

/// How a request to start the server of a plugin is met.
#[derive(Debug)]
pub enum StartMcp {
    /// The answer is known.
    Answer { response: IPCResponse },
    /// It is looked for how the server is started.
    Detect { install_path: String },
    /// The server is started.
    Start { install_path: String, entry_point: String, config_json: Option<String> },
}

/// How a request to start the server of a plugin is met.
pub fn handle_start_mcp(id: &str, plugin_id: &str, known: &Option<Plugin>) -> (r: StartMcp)
    ensures
        match *known {
            None => r matches StartMcp::Answer { response } && is_action(
                response,
                id@,
                plugin_id@,
                "start_mcp"@,
                false,
                "Plugin not found"@,
            ),
            Some(p) => match (p.install_path, p.entry_point) {
                (None, _) => r matches StartMcp::Answer { response } && is_action(
                    response,
                    id@,
                    plugin_id@,
                    "start_mcp"@,
                    false,
                    "Plugin is not installed"@,
                ),
                (Some(path), None) => r matches StartMcp::Detect { install_path }
                    && install_path == path,
                (Some(path), Some(entry)) => r matches StartMcp::Start {
                    install_path,
                    entry_point,
                    config_json,
                } && install_path == path && entry_point == entry && config_json == p.config_json,
            },
        },
{
    match known {
        None => StartMcp::Answer {
            response: plugin_action(
                id,
                plugin_id,
                "start_mcp",
                false,
                "Plugin not found".to_owned(),
            ),
        },
        Some(p) => match &p.install_path {
            None => StartMcp::Answer {
                response: plugin_action(
                    id,
                    plugin_id,
                    "start_mcp",
                    false,
                    "Plugin is not installed".to_owned(),
                ),
            },
            Some(path) => match &p.entry_point {
                None => StartMcp::Detect { install_path: path.clone() },
                Some(entry) => StartMcp::Start {
                    install_path: path.clone(),
                    entry_point: entry.clone(),
                    config_json: p.config_json.clone(),
                },
            },
        },
    }
}

/// How the server of a plugin is started once it was looked for how: what was
/// found is noted, and the server is started with it.
pub fn on_detected(
    id: &str,
    plugin_id: &str,
    install_path: &str,
    detected: &Option<String>,
    config_json: &Option<String>,
) -> (r: StartMcp)
    ensures
        match *detected {
            Some(e) => r matches StartMcp::Start { install_path: p, entry_point, config_json: c }
                && p@ == install_path@ && entry_point == e && c == *config_json,
            None => r matches StartMcp::Answer { response } && is_action(
                response,
                id@,
                plugin_id@,
                "start_mcp"@,
                false,
                "Could not detect how to start this MCP server. Check the plugin's README."@,
            ),
        },
{
    match detected {
        Some(e) => StartMcp::Start {
            install_path: install_path.to_owned(),
            entry_point: e.clone(),
            config_json: config_json.clone(),
        },
        None => StartMcp::Answer {
            response: plugin_action(
                id,
                plugin_id,
                "start_mcp",
                false,
                "Could not detect how to start this MCP server. Check the plugin's README.".to_owned(),
            ),
        },
    }
}

/// The answer to a server that is being started.
pub fn mcp_starting(id: &str, plugin_id: &str) -> (r: IPCResponse)
    ensures
        is_action(r, id@, plugin_id@, "start_mcp"@, true, "MCP server starting…"@),
{
    plugin_action(id, plugin_id, "start_mcp", true, "MCP server starting…".to_owned())
}

/// The answer to a server that is being stopped.
pub fn handle_stop_mcp(id: &str, plugin_id: &str) -> (r: IPCResponse)
    ensures
        is_action(r, id@, plugin_id@, "stop_mcp"@, true, "MCP server stopping…"@),
{
    plugin_action(id, plugin_id, "stop_mcp", true, "MCP server stopping…".to_owned())
}

// ---------------------------------------------------------------------------
// Models
// ---------------------------------------------------------------------------

/// The answer to a start of the local model: whether it is up, or why not.
pub fn handle_launch_gemma(id: &str, model: &str, outcome: &Result<Launch, String>) -> (r:
    IPCResponse)
    ensures
        r matches IPCResponse::GemmaLaunched { id: i, success, message } && i@ == id@ && success
            == (*outcome == Ok::<Launch, String>(Launch::Up)) && message@ == (match *outcome {
            Ok(Launch::Up) => "Gemma is up and responding. Model in use: "@ + model@,
            Ok(Launch::NoMemory) =>
                "Not enough free RAM to start Gemma. Free at least 6 GiB and try again."@,
            Ok(Launch::TimedOut) =>
                "Gemma did not become ready within timeout; process may be starting in background"@,
            Err(e) => "Failed to launch Gemma: "@ + e@,
        }),
{
    let (success, message) = match outcome {
        Ok(Launch::Up) => {
            let mut m = "Gemma is up and responding. Model in use: ".to_owned();
            m.append(model);
            (true, m)
        },
        Ok(Launch::NoMemory) => (
            false,
            "Not enough free RAM to start Gemma. Free at least 6 GiB and try again.".to_owned(),
        ),
        Ok(Launch::TimedOut) => (
            false,
            "Gemma did not become ready within timeout; process may be starting in background".to_owned(),
        ),
        Err(e) => {
            let mut m = "Failed to launch Gemma: ".to_owned();
            m.append(e);
            (false, m)
        },
    };
    IPCResponse::GemmaLaunched { id: id.to_owned(), success, message }
}

/// A configuration after a change: what is blank in the request stays, and a
/// new key serves for embeddings too where these have none.
pub open spec fn changed(
    c: LLMConfigV,
    base_url: Seq<char>,
    api_key: Seq<char>,
    model: Seq<char>,
) -> LLMConfigV {
    LLMConfigV {
        base_url: if text::blank(base_url) {
            c.base_url
        } else {
            base_url
        },
        api_key: if text::blank(api_key) {
            c.api_key
        } else {
            api_key
        },
        model: if text::blank(model) {
            c.model
        } else {
            model
        },
        embedding_api_key: if !text::blank(api_key) && text::blank(c.embedding_api_key) {
            api_key
        } else {
            c.embedding_api_key
        },
        ..c
    }
}

/// Changes a configuration, and answers that it is changed.
pub fn handle_update_config(
    id: &str,
    config: &mut LLMConfig,
    base_url: &str,
    api_key: &str,
    model: &str,
) -> (r: IPCResponse)
    ensures
        final(config)@ == changed(old(config)@, base_url@, api_key@, model@),
        r matches IPCResponse::ConfigUpdated { id: i, success } && i@ == id@ && success,
{
    if !text::is_blank(base_url) {
        config.base_url = base_url.to_owned();
    }
    if !text::is_blank(api_key) {
        config.api_key = api_key.to_owned();
        if text::is_blank(&config.embedding_api_key) {
            config.embedding_api_key = api_key.to_owned();
        }
    }
    if !text::is_blank(model) {
        config.model = model.to_owned();
    }
    IPCResponse::ConfigUpdated { id: id.to_owned(), success: true }
}

/// A change that says nothing changes nothing, and the same change made twice
/// is as good as made once.
pub proof fn changes_settle(
    c: LLMConfigV,
    base_url: Seq<char>,
    api_key: Seq<char>,
    model: Seq<char>,
)
    ensures
        text::blank(base_url) && text::blank(api_key) && text::blank(model) ==> changed(
            c,
            base_url,
            api_key,
            model,
        ) == c,
        changed(changed(c, base_url, api_key, model), base_url, api_key, model) == changed(
            c,
            base_url,
            api_key,
            model,
        ),
{
}

} // verus!
