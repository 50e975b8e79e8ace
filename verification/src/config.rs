//! The settings of the assistant and their defaults.

use crate::text::{append_chars, chars_of, string_of};
use vstd::prelude::*;
use vstd::string::StringExecFns;

verus! {

/// The settings of the loop.
#[derive(Debug, Clone)]
pub struct AgentConfig {
    pub model: String,
    pub max_tokens: u32,
    pub max_iterations: u32,
    pub memory_window: u32,
    pub workspace: String,
}

pub fn default_max_tokens() -> (r: u32)
    ensures
        r == 8192,
{
    8192
}

pub fn default_max_iterations() -> (r: u32)
    ensures
        r == 20,
{
    20
}

pub fn default_memory_window() -> (r: u32)
    ensures
        r == 50,
{
    50
}

pub fn default_workspace() -> (r: String)
    ensures
        r@ == "~/.santosobot/workspace"@,
{
    String::from_str("~/.santosobot/workspace")
}

pub fn default_api_base() -> (r: String)
    ensures
        r@ == "https://api.openai.com/v1"@,
{
    String::from_str("https://api.openai.com/v1")
}

pub fn default_shell_timeout() -> (r: u64)
    ensures
        r == 60,
{
    60
}

pub fn default_enabled() -> (r: bool)
    ensures
        r,
{
    true
}

impl Default for AgentConfig {
    fn default() -> (r: Self)
        ensures
            r.model@ == "gpt-4o-mini"@,
            r.max_tokens == 8192,
            r.max_iterations == 20,
            r.memory_window == 50,
            r.workspace@ == "~/.santosobot/workspace"@,
    {
        Self {
            model: String::from_str("gpt-4o-mini"),
            max_tokens: default_max_tokens(),
            max_iterations: default_max_iterations(),
            memory_window: default_memory_window(),
            workspace: default_workspace(),
        }
    }
}

/// The settings of the model endpoint.
#[derive(Debug, Clone)]
pub struct ProviderConfig {
    pub api_key: String,
    pub api_base: String,
    pub model: String,
    pub brave_api_key: String,
}

impl Default for ProviderConfig {
    fn default() -> (r: Self)
        ensures
            r.api_key@ == Seq::<char>::empty(),
            r.api_base@ == "https://api.openai.com/v1"@,
            r.model@ == Seq::<char>::empty(),
            r.brave_api_key@ == Seq::<char>::empty(),
    {
        Self {
            api_key: String::new(),
            api_base: default_api_base(),
            model: String::new(),
            brave_api_key: String::new(),
        }
    }
}

/// The settings of the tools.
#[derive(Debug, Clone)]
pub struct ToolsConfig {
    pub shell_timeout: u64,
    pub restrict_to_workspace: bool,
}

impl ToolsConfig {
    /// The directory that the file tools stay in: the workspace where they
    /// are restricted to it, none where they are not.
    pub fn allowed_dir(&self, workspace: &str) -> (r: Option<String>)
        ensures
            self.restrict_to_workspace ==> r is Some && r->0@ == workspace@,
            !self.restrict_to_workspace ==> r is None,
    {
        if self.restrict_to_workspace {
            Some(String::from_str(workspace))
        } else {
            None
        }
    }
}

impl Default for ToolsConfig {
    fn default() -> (r: Self)
        ensures
            r.shell_timeout == 60,
            !r.restrict_to_workspace,
    {
        Self { shell_timeout: default_shell_timeout(), restrict_to_workspace: false }
    }
}

/// The settings of the Telegram channel.
#[derive(Debug, Clone)]
pub struct TelegramConfig {
    pub enabled: bool,
    pub token: String,
    pub allow_from: Vec<String>,
}

impl Default for TelegramConfig {
    fn default() -> (r: Self)
        ensures
            !r.enabled,
            r.token@ == Seq::<char>::empty(),
            r.allow_from@ == Seq::<String>::empty(),
    {
        Self { enabled: false, token: String::new(), allow_from: Vec::new() }
    }
}

/// The settings of the command-line channel.
#[derive(Debug, Clone)]
pub struct CliConfig {
    pub enabled: bool,
}

impl Default for CliConfig {
    fn default() -> (r: Self)
        ensures
            r.enabled,
    {
        Self { enabled: default_enabled() }
    }
}

/// The settings of the channels.
#[derive(Debug, Clone)]
pub struct ChannelsConfig {
    pub telegram: TelegramConfig,
    pub cli: CliConfig,
}

impl Default for ChannelsConfig {
    fn default() -> (r: Self)
        ensures
            !r.telegram.enabled,
            r.telegram.token@ == Seq::<char>::empty(),
            r.telegram.allow_from@ == Seq::<String>::empty(),
            r.cli.enabled,
    {
        Self { telegram: TelegramConfig::default(), cli: CliConfig::default() }
    }
}

/// All settings.
#[derive(Debug, Clone)]
pub struct Config {
    pub agent: AgentConfig,
    pub provider: ProviderConfig,
    pub tools: ToolsConfig,
    pub channels: ChannelsConfig,
}

impl Default for Config {
    fn default() -> (r: Self)
        ensures
            r.agent.model@ == "gpt-4o-mini"@,
            r.agent.max_tokens == 8192,
            r.agent.max_iterations == 20,
            r.agent.memory_window == 50,
            r.agent.workspace@ == "~/.santosobot/workspace"@,
            r.provider.api_key@ == Seq::<char>::empty(),
            r.provider.api_base@ == "https://api.openai.com/v1"@,
            r.provider.model@ == Seq::<char>::empty(),
            r.provider.brave_api_key@ == Seq::<char>::empty(),
            r.tools.shell_timeout == 60,
            !r.tools.restrict_to_workspace,
            !r.channels.telegram.enabled,
            r.channels.telegram.token@ == Seq::<char>::empty(),
            r.channels.telegram.allow_from@ == Seq::<String>::empty(),
            r.channels.cli.enabled,
    {
        Self {
            agent: AgentConfig::default(),
            provider: ProviderConfig::default(),
            tools: ToolsConfig::default(),
            channels: ChannelsConfig::default(),
        }
    }
}

/// `path` with the home directory `home` in the place of every tilde.
pub open spec fn expand_home(path: Seq<char>, home: Seq<char>) -> Seq<char>
    decreases path.len(),
{
    if path.len() == 0 {
        Seq::empty()
    } else if path.last() == '~' {
        expand_home(path.drop_last(), home) + home
    } else {
        expand_home(path.drop_last(), home).push(path.last())
    }
}

/// `dirs::home_dir`, as text: the home directory of the user that runs the
/// program, or `None` where the system names none. It is the machine's
/// answer, so nothing is promised of it.
#[verifier::external_body]
fn home_dir_text() -> Option<String> {
    dirs::home_dir().map(|home| home.display().to_string())
}

impl Config {
    /// The workspace, with `home` in the place of every tilde.
    pub fn workspace_path_in(&self, home: &str) -> (r: String)
        ensures
            r@ == expand_home(self.agent.workspace@, home@),
    {
        let path = chars_of(self.agent.workspace.as_str());
        let home_chars = chars_of(home);
        let mut out: Vec<char> = Vec::new();
        let mut i: usize = 0;
        while i < path.len()
            invariant
                i <= path.len(),
                out@ == expand_home(path@.subrange(0, i as int), home_chars@),
            decreases path.len() - i,
        {
            proof {
                let next = path@.subrange(0, i + 1);
                assert(next.last() == path@[i as int]);
                assert(next.drop_last() == path@.subrange(0, i as int));
            }
            if path[i] == '~' {
                append_chars(&mut out, &home_chars);
            } else {
                out.push(path[i]);
            }
            i = i + 1;
        }
        assert(path@.subrange(0, path.len() as int) == path@);
        string_of(&out)
    }

    /// The workspace, with the home directory of the user in the place of
    /// every tilde; where the system names no home directory, the tildes
    /// are dropped.
    pub fn workspace_path(&self) -> (r: String)
        ensures
            exists|home: Seq<char>| r@ == expand_home(self.agent.workspace@, home),
    {
        let home = match home_dir_text() {
            Some(home) => home,
            None => String::new(),
        };
        let r = self.workspace_path_in(home.as_str());
        assert(r@ == expand_home(self.agent.workspace@, home@));
        r
    }
}

} // verus!
