//! The resolved build configuration, and the command-line overrides that
//! fold into it. Paths live here as separator-normalized text.
use vstd::prelude::*;

verus! {

/// Project options for one site, as the configuration file resolves them.
pub struct Site {
    /// The site's base URL.
    pub baseurl: String,
    /// Where the rendered pages and synced assets go.
    pub out_dir: String,
    /// The content root: each template file under it becomes one page.
    pub content: String,
    /// The theme root, holding partials and layouts; a site may have none.
    pub theme: Option<String>,
    /// The static-assets root, mirrored into the output; optional too.
    pub assets: Option<String>,
    /// Whether an unresolved context reference is a hard error instead of an
    /// empty substitution.
    pub strict: bool,
}

/// A unified configuration: the site options plus free-form parameters the
/// templates may read.
pub struct Config {
    /// Project-specific options.
    pub site: Site,
    /// Extra values carried into the render context, by key.
    pub params: Vec<(String, serde_json::Value)>,
}

/// One link entry a site's parameters may carry.
pub struct Link {
    /// The link's label.
    pub name: String,
    /// What the label points at.
    pub value: String,
    /// An optional icon path shown beside it.
    pub icon: Option<String>,
}

/// The default output directory used when a configuration names none.
pub fn default_outdir() -> (res: String)
    ensures
        res@ == "./html"@,
{
    proof {
        reveal_strlit("./html");
    }
    String::from_str("./html")
}

/// The default for boolean configuration flags that are off unless set.
pub fn default_false() -> (res: bool)
    ensures
        res == false,
{
    false
}

/// Relies on serde_json::Value::String: the given text as a JSON value.
#[verifier::external_body]
fn json_text(s: String) -> serde_json::Value {
    serde_json::Value::String(s)
}

/// Relies on the From<u64> conversion of serde_json::Value: the given number
/// as a JSON value.
#[verifier::external_body]
fn json_number(n: u64) -> serde_json::Value {
    serde_json::Value::from(n)
}

/// Relies on serde_json::Value::Array: the given items as a JSON array.
#[verifier::external_body]
fn json_array(items: Vec<serde_json::Value>) -> serde_json::Value {
    serde_json::Value::Array(items)
}

/// Relies on serde_json::Map's FromIterator and Value::Object: the given
/// entries, in order, as a JSON object.
#[verifier::external_body]
fn json_object(entries: Vec<(String, serde_json::Value)>) -> serde_json::Value {
    serde_json::Value::Object(entries.into_iter().collect())
}

/// One sample link entry for the example configuration.
fn sample_link(name: &str, target: &str, icon: Option<&str>) -> serde_json::Value {
    let mut fields: Vec<(String, serde_json::Value)> = Vec::new();
    fields.push((String::from_str("name"), json_text(name.to_owned())));
    fields.push((String::from_str("value"), json_text(target.to_owned())));
    match icon {
        Some(icon) => fields.push((String::from_str("iconuri"), json_text(icon.to_owned()))),
        None => {},
    }
    json_object(fields)
}

/// The parsed command line.
pub struct Cli {
    /// How talkative the log should be.
    pub verbose: u8,
    /// Suppress everything but errors.
    pub quiet: bool,
    /// What to do.
    pub command: Command,
}

/// The commands the program offers.
pub enum Command {
    /// Render the site to static pages.
    Build {
        /// Override the configuration's strict flag.
        strict: Option<bool>,
        /// Override the output folder.
        output: Option<String>,
        /// Override the content folder.
        content: Option<String>,
        /// Override the theme folder.
        theme: Option<String>,
        /// Override the assets folder.
        assets: Option<String>,
        /// Where the configuration file lives.
        config: String,
    },
    /// Serve the site locally while editing.
    Serve {
        /// The port to bind.
        port: u16,
        /// Override the configuration's strict flag.
        strict: Option<bool>,
        /// Override the content folder.
        content: Option<String>,
        /// Override the theme folder.
        theme: Option<String>,
        /// Override the assets folder.
        assets: Option<String>,
        /// Where the configuration file lives.
        config: String,
    },
    /// Create a fresh site skeleton.
    New {
        /// Overwrite what is already there.
        force: bool,
        /// The project root to create.
        base_path: String,
    },
}

/// The strict-flag override a command carries, if any.
pub open spec fn cli_strict_override(cli: &Cli) -> Option<bool> {
    match cli.command {
        Command::Build { strict, .. } => strict,
        Command::Serve { strict, .. } => strict,
        Command::New { .. } => Option::None,
    }
}

/// The output-folder override a command carries, if any; only a build reads
/// it.
pub open spec fn cli_output_override(cli: &Cli) -> Option<String> {
    match cli.command {
        Command::Build { output, .. } => output,
        _ => Option::None,
    }
}

/// The content-folder override a command carries, if any; only a build reads
/// it.
pub open spec fn cli_content_override(cli: &Cli) -> Option<String> {
    match cli.command {
        Command::Build { content, .. } => content,
        _ => Option::None,
    }
}

/// The theme-folder override a command carries, if any; only a build reads
/// it.
pub open spec fn cli_theme_override(cli: &Cli) -> Option<String> {
    match cli.command {
        Command::Build { theme, .. } => theme,
        _ => Option::None,
    }
}

/// The assets-folder override a command carries, if any; only a build reads
/// it.
pub open spec fn cli_assets_override(cli: &Cli) -> Option<String> {
    match cli.command {
        Command::Build { assets, .. } => assets,
        _ => Option::None,
    }
}

/// `base` unless an override text replaces it.
pub open spec fn pick_text(base: Seq<char>, over: Option<String>) -> Seq<char> {
    match over {
        Option::Some(s) => s@,
        Option::None => base,
    }
}

/// `base` unless an override flag replaces it.
pub open spec fn pick_flag(base: bool, over: Option<bool>) -> bool {
    match over {
        Option::Some(b) => b,
        Option::None => base,
    }
}

/// An optional text as the sequence it holds.
pub open spec fn opt_text(o: Option<String>) -> Option<Seq<char>> {
    match o {
        Option::Some(s) => Option::Some(s@),
        Option::None => Option::None,
    }
}

/// `base` unless an override text replaces it; an override always leaves a
/// value behind.
pub open spec fn pick_opt_text(base: Option<Seq<char>>, over: Option<String>) -> Option<
    Seq<char>,
> {
    match over {
        Option::Some(s) => Option::Some(s@),
        Option::None => base,
    }
}

impl Config {
    /// Well-formed: parameter keys are unique, as the key-value map they
    /// stand for has them.
    pub open spec fn wf(&self) -> bool {
        forall|i: int, j: int|
            0 <= i < j < self.params@.len() ==> self.params@[i].0@ != self.params@[j].0@
    }

    /// Folds the command line's overrides into this configuration: a build
    /// may override any site option, serving may override only the strict
    /// flag, and creating a project overrides nothing.
    pub fn update_from(&mut self, cli: &Cli)
        ensures
            final(self).site.baseurl == old(self).site.baseurl,
            final(self).site.out_dir@ == pick_text(old(self).site.out_dir@, cli_output_override(cli)),
            final(self).site.content@ == pick_text(old(self).site.content@, cli_content_override(cli)),
            opt_text(final(self).site.theme) == pick_opt_text(opt_text(old(self).site.theme), cli_theme_override(cli)),
            opt_text(final(self).site.assets) == pick_opt_text(opt_text(old(self).site.assets), cli_assets_override(cli)),
            final(self).site.strict == pick_flag(old(self).site.strict, cli_strict_override(cli)),
            final(self).params == old(self).params,
            old(self).wf() ==> final(self).wf(),
    {
        match &cli.command {
            Command::Build { strict, output, content, theme, assets, config: _ } => {
                if let Some(is_strict) = strict {
                    self.site.strict = *is_strict;
                }
                if let Some(output_folder) = output {
                    self.site.out_dir = output_folder.clone();
                }
                if let Some(content_folder) = content {
                    self.site.content = content_folder.clone();
                }
                if let Some(theme_folder) = theme {
                    self.site.theme = Some(theme_folder.clone());
                }
                if let Some(assets_folder) = assets {
                    self.site.assets = Some(assets_folder.clone());
                }
            },
            Command::Serve { strict, .. } => {
                if let Some(is_strict) = strict {
                    self.site.strict = *is_strict;
                }
            },
            Command::New { .. } => {},
        }
    }

    /// `update_from`, consuming and returning the configuration.
    pub fn merge_with(self, cli: &Cli) -> (res: Config)
        ensures
            res.site.baseurl == self.site.baseurl,
            res.site.out_dir@ == pick_text(self.site.out_dir@, cli_output_override(cli)),
            res.site.content@ == pick_text(self.site.content@, cli_content_override(cli)),
            opt_text(res.site.theme) == pick_opt_text(opt_text(self.site.theme), cli_theme_override(cli)),
            opt_text(res.site.assets) == pick_opt_text(opt_text(self.site.assets), cli_assets_override(cli)),
            res.site.strict == pick_flag(self.site.strict, cli_strict_override(cli)),
            res.params == self.params,
            self.wf() ==> res.wf(),
    {
        let mut merged = self;
        merged.update_from(cli);
        merged
    }
}

impl core::default::Default for Config {
    /// An example configuration for a fresh project: nothing here describes
    /// a real site. Beside the site options it carries five sample
    /// parameters — a title, a description, a number, a list of links, and a
    /// made-with note — under distinct keys.
    fn default() -> (res: Config)
        ensures
            res.site.baseurl@ == "example.com"@,
            res.site.out_dir@ == "./output"@,
            res.site.content@ == "./content"@,
            opt_text(res.site.theme) == Option::Some("./theme"@),
            opt_text(res.site.assets) == Option::Some("./assets"@),
            res.site.strict == false,
            res.params@.len() == 5,
            res.params@[0].0@ == "title"@,
            res.params@[1].0@ == "desc"@,
            res.params@[2].0@ == "some_nonstring_value"@,
            res.params@[3].0@ == "links"@,
            res.params@[4].0@ == "made_with"@,
            res.wf(),
    {
        let mut params: Vec<(String, serde_json::Value)> = Vec::new();
        params.push(
            (String::from_str("title"), json_text(String::from_str("MLLT Example Site"))),
        );
        params.push(
            (
                String::from_str("desc"),
                json_text(String::from_str("This is an example MLLT site.")),
            ),
        );
        params.push((String::from_str("some_nonstring_value"), json_number(42)));
        let mut links: Vec<serde_json::Value> = Vec::new();
        links.push(sample_link("My Social Media", "@example.bsky.app", Some("./bsky_icon.png")));
        links.push(sample_link("My Blog", "https://blog.example.com", None));
        links.push(sample_link("My Github", "https://github.com", Some("./gh_icon.png")));
        params.push((String::from_str("links"), json_array(links)));
        let mut made_with: Vec<(String, serde_json::Value)> = Vec::new();
        made_with.push((String::from_str("name"), json_text(String::from_str("mllt"))));
        made_with.push(
            (
                String::from_str("link"),
                json_text(String::from_str("https://github.com/Montessquio/mllt")),
            ),
        );
        params.push((String::from_str("made_with"), json_object(made_with)));
        let res = Config {
            site: Site {
                baseurl: String::from_str("example.com"),
                out_dir: String::from_str("./output"),
                content: String::from_str("./content"),
                theme: Some(String::from_str("./theme")),
                assets: Some(String::from_str("./assets")),
                strict: false,
            },
            params,
        };
        proof {
            reveal_strlit("title");
            reveal_strlit("desc");
            reveal_strlit("some_nonstring_value");
            reveal_strlit("links");
            reveal_strlit("made_with");
            assert forall|i: int, j: int|
                0 <= i < j < res.params@.len() implies res.params@[i].0@ != res.params@[j].0@ by {
                let ki = res.params@[i].0@;
                let kj = res.params@[j].0@;
                assert(ki.len() != kj.len() || ki[0] != kj[0]);
            }
        }
        res
    }
}

} // verus!
