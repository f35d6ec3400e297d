use crate::config::{
    new_endpoint_spec, position_of, with_enabled, AppConfig, AppConfigView, EditError,
    EndpointView,
};
use vstd::prelude::*;

verus! {

/// The agent's subcommands for managing the endpoint list.
#[derive(Clone, Debug, PartialEq, Eq)]
pub enum Commands {
    /// Show version information.
    Version,
    /// List all configured endpoints.
    List,
    /// Add a new endpoint.
    Add { name: String, server: String, secret: String, enabled: bool },
    /// Remove an endpoint.
    Remove { name: String },
    /// Enable an endpoint.
    Enable { name: String },
    /// Disable an endpoint.
    Disable { name: String },
}

/// The configuration after an edit command, and its result; `None` for a
/// command that edits nothing.
pub open spec fn edit_spec(c: AppConfigView, cmd: Commands) -> Option<(AppConfigView, Result<(), EditError>)> {
    match cmd {
        Commands::Version | Commands::List => None,
        Commands::Add { name, server, secret, enabled } => Some(
            match position_of(c.endpoints, name@) {
                Some(_) => (c, Err(EditError::AlreadyExists)),
                None => (
                    AppConfigView {
                        endpoints: c.endpoints.push(
                            new_endpoint_spec(name@, server@, secret@, enabled),
                        ),
                        ..c
                    },
                    Ok(()),
                ),
            },
        ),
        Commands::Remove { name } => Some(
            match position_of(c.endpoints, name@) {
                Some(i) => (AppConfigView { endpoints: c.endpoints.remove(i), ..c }, Ok(())),
                None => (c, Err(EditError::NotFound)),
            },
        ),
        Commands::Enable { name } => Some(toggle_spec(c, name@, true)),
        Commands::Disable { name } => Some(toggle_spec(c, name@, false)),
    }
}

pub open spec fn toggle_spec(c: AppConfigView, name: Seq<char>, enabled: bool) -> (
    AppConfigView,
    Result<(), EditError>,
) {
    match position_of(c.endpoints, name) {
        Some(i) => (
            AppConfigView {
                endpoints: c.endpoints.update(i, with_enabled(c.endpoints[i], enabled)),
                ..c
            },
            Ok(()),
        ),
        None => (c, Err(EditError::NotFound)),
    }
}

/// Applies an edit command to the configuration; `None`, with nothing
/// changed, for `Version` and `List`.
pub fn apply_edit(config: &mut AppConfig, cmd: Commands) -> (r: Option<Result<(), EditError>>)
    ensures
        match edit_spec(old(config)@, cmd) {
            Some((c, res)) => final(config)@ == c && r == Some(res),
            None => final(config)@ == old(config)@ && r is None,
        },
{
    match cmd {
        Commands::Version | Commands::List => None,
        Commands::Add { name, server, secret, enabled } => Some(
            config.add_endpoint(name, server, secret, enabled),
        ),
        Commands::Remove { name } => Some(config.remove_endpoint(name.as_str())),
        Commands::Enable { name } => Some(config.set_enabled(name.as_str(), true)),
        Commands::Disable { name } => Some(config.set_enabled(name.as_str(), false)),
    }
}

pub open spec fn listing_line_spec(e: EndpointView) -> Seq<char> {
    "  - "@ + e.name + " ("@ + (if e.enabled {
        "enabled"@
    } else {
        "disabled"@
    }) + ")"@
}

/// One line per endpoint, `  - <name> (enabled|disabled)`, in order.
pub fn listing(config: &AppConfig) -> (r: Vec<String>)
    ensures
        r@.len() == config@.endpoints.len(),
        forall|i: int| 0 <= i < r@.len() ==> (#[trigger] r@[i])@ == listing_line_spec(config@.endpoints[i]),
{
    let n = config.endpoints.len();
    let mut lines: Vec<String> = Vec::new();
    let mut i: usize = 0;
    while i < n
        invariant
            n == config.endpoints.len(),
            i <= n,
            lines@.len() == i,
            forall|j: int| 0 <= j < i ==> (#[trigger] lines@[j])@ == listing_line_spec(config@.endpoints[j]),
        decreases n - i,
    {
        let e = &config.endpoints[i];
        let mut line = "  - ".to_owned();
        line.append(e.name.as_str());
        line.append(" (");
        line.append(if e.enabled { "enabled" } else { "disabled" });
        line.append(")");
        lines.push(line);
        i = i + 1;
    }
    lines
}

} // verus!
