//! The parameters of a pull request and how they are resolved.

use vstd::hash_map::StringHashMap;
use vstd::prelude::*;

verus! {

/// The ten resolved parameters of a pull-request URL. An empty string stands
/// for a parameter that was not given.
pub struct CommandArgs {
    pub repo: String,
    pub dest: String,
    pub src: String,
    pub title: String,
    pub body: String,
    pub labels: String,
    pub milestone: String,
    pub assignees: String,
    pub projects: String,
    pub template: String,
}

/// The text of each of the ten parameters.
pub struct ParameterBundle {
    pub repo: Seq<char>,
    pub dest: Seq<char>,
    pub src: Seq<char>,
    pub title: Seq<char>,
    pub body: Seq<char>,
    pub labels: Seq<char>,
    pub milestone: Seq<char>,
    pub assignees: Seq<char>,
    pub projects: Seq<char>,
    pub template: Seq<char>,
}

impl View for CommandArgs {
    type V = ParameterBundle;

    open spec fn view(&self) -> ParameterBundle {
        ParameterBundle {
            repo: self.repo@,
            dest: self.dest@,
            src: self.src@,
            title: self.title@,
            body: self.body@,
            labels: self.labels@,
            milestone: self.milestone@,
            assignees: self.assignees@,
            projects: self.projects@,
            template: self.template@,
        }
    }
}

impl CommandArgs {
    /// Whether the source branch is still to be found: it was neither given
    /// nor set by default.
    pub fn needs_branch(&self) -> (needed: bool)
        ensures
            needed == (self@.src.len() == 0),
    {
        self.src.as_str().is_empty()
    }
}

/// What the command line gave: the value of each flag that was present, and
/// whether the URL is to be opened in a browser.
pub struct CliValues {
    pub repo: Option<String>,
    pub dest: Option<String>,
    pub src: Option<String>,
    pub title: Option<String>,
    pub body: Option<String>,
    pub labels: Option<String>,
    pub milestone: Option<String>,
    pub assignees: Option<String>,
    pub projects: Option<String>,
    pub template: Option<String>,
    pub open: bool,
}

/// The text of each value that the command line gave.
pub struct GivenBundle {
    pub repo: Option<Seq<char>>,
    pub dest: Option<Seq<char>>,
    pub src: Option<Seq<char>>,
    pub title: Option<Seq<char>>,
    pub body: Option<Seq<char>>,
    pub labels: Option<Seq<char>>,
    pub milestone: Option<Seq<char>>,
    pub assignees: Option<Seq<char>>,
    pub projects: Option<Seq<char>>,
    pub template: Option<Seq<char>>,
    pub open: bool,
}

/// The text of an optional string.
pub open spec fn text_of(value: Option<String>) -> Option<Seq<char>> {
    match value {
        Some(text) => Some(text@),
        None => None,
    }
}

impl View for CliValues {
    type V = GivenBundle;

    open spec fn view(&self) -> GivenBundle {
        GivenBundle {
            repo: text_of(self.repo),
            dest: text_of(self.dest),
            src: text_of(self.src),
            title: text_of(self.title),
            body: text_of(self.body),
            labels: text_of(self.labels),
            milestone: text_of(self.milestone),
            assignees: text_of(self.assignees),
            projects: text_of(self.projects),
            template: text_of(self.template),
            open: self.open,
        }
    }
}

/// The value of the first source that has one, the empty text if none has.
pub open spec fn first_present(sources: Seq<Option<&String>>) -> Seq<char>
    decreases sources.len(),
{
    if sources.len() == 0 {
        Seq::empty()
    } else {
        match sources[0] {
            Some(value) => value@,
            None => first_present(sources.drop_first()),
        }
    }
}

/// The resolved value of a parameter: the explicit value if there is one, else
/// the default under `key` if there is one, else the empty text.
pub open spec fn resolved(
    explicit: Option<Seq<char>>,
    defaults: Map<Seq<char>, Seq<char>>,
    key: Seq<char>,
) -> Seq<char> {
    match explicit {
        Some(value) => value,
        None => if defaults.contains_key(key) {
            defaults[key]
        } else {
            Seq::empty()
        },
    }
}

/// The bundle that the given values and the defaults resolve to, parameter by
/// parameter.
pub open spec fn resolved_bundle(
    given: GivenBundle,
    defaults: Map<Seq<char>, Seq<char>>,
) -> ParameterBundle {
    ParameterBundle {
        repo: resolved(given.repo, defaults, "repo"@),
        dest: resolved(given.dest, defaults, "dest"@),
        src: resolved(given.src, defaults, "src"@),
        title: resolved(given.title, defaults, "title"@),
        body: resolved(given.body, defaults, "body"@),
        labels: resolved(given.labels, defaults, "labels"@),
        milestone: resolved(given.milestone, defaults, "milestone"@),
        assignees: resolved(given.assignees, defaults, "assignees"@),
        projects: resolved(given.projects, defaults, "projects"@),
        template: resolved(given.template, defaults, "template"@),
    }
}

/// The defaults that a list of key/value pairs describes. Where a key occurs
/// more than once, its last value counts.
pub open spec fn defaults_of(pairs: Seq<(String, String)>) -> Map<Seq<char>, Seq<char>>
    decreases pairs.len(),
{
    if pairs.len() == 0 {
        Map::empty()
    } else {
        defaults_of(pairs.drop_last()).insert(pairs.last().0@, pairs.last().1@)
    }
}

/// The texts of the values of a string map.
pub open spec fn texts(store: Map<Seq<char>, String>) -> Map<Seq<char>, Seq<char>> {
    store.map_values(|value: String| value@)
}

/// Looks the sources up in order and returns the first value found, or the
/// empty string.
pub fn resolve(sources: &[Option<&String>]) -> (value: String)
    ensures
        value@ == first_present(sources@),
{
    let mut i: usize = 0;
    assert(sources@.skip(0) == sources@);
    while i < sources.len()
        invariant
            i <= sources.len(),
            first_present(sources@) == first_present(sources@.skip(i as int)),
        decreases sources.len() - i,
    {
        match sources[i] {
            Some(found) => {
                return found.clone();
            },
            None => {
                assert(sources@.skip(i as int).drop_first() == sources@.skip(i as int + 1));
            },
        }
        i += 1;
    }
    String::new()
}

/// The store of defaults that the configuration file supplied.
pub struct ConfigReader {
    config_file_data: StringHashMap<String>,
}

impl View for ConfigReader {
    type V = Map<Seq<char>, Seq<char>>;

    /// The defaults in the store, by parameter name.
    closed spec fn view(&self) -> Map<Seq<char>, Seq<char>> {
        texts(self.config_file_data@)
    }
}

impl ConfigReader {

    /// A reader over the defaults that were loaded from the configuration
    /// file, or over none if the file gave nothing.
    pub fn new(loaded: Option<Vec<(String, String)>>) -> (reader: Self)
        ensures
            reader@ == match loaded {
                Some(pairs) => defaults_of(pairs@),
                None => Map::empty(),
            },
    {
        let mut instance = Self { config_file_data: StringHashMap::new() };
        instance.read_config_file(loaded);
        instance
    }

    /// Replaces the defaults by those that were loaded; keeps them where
    /// nothing was loaded.
    pub fn read_config_file(&mut self, loaded: Option<Vec<(String, String)>>)
        ensures
            final(self)@ == match loaded {
                Some(pairs) => defaults_of(pairs@),
                None => old(self)@,
            },
    {
        match loaded {
            Some(pairs) => {
                let mut values: StringHashMap<String> = StringHashMap::new();
                let ghost all = pairs@;
                for pair in it: pairs
                    invariant
                        it.seq() == all,
                        texts(values@) == defaults_of(all.take(it.index() as int)),
                {
                    assert(all.take(it.index() + 1).drop_last() == all.take(it.index() as int));
                    values.insert(pair.0, pair.1);
                }
                assert(all.take(all.len() as int) == all);
                self.config_file_data = values;
            },
            None => {},
        }
    }

    /// The stored defaults.
    pub fn get_file_config(&self) -> (store: &StringHashMap<String>)
        ensures
            texts(store@) == self@,
    {
        &self.config_file_data
    }

    /// Resolves one parameter: the explicit value wins over the default under
    /// `key`, which wins over the empty string.
    pub fn get_config_value(&self, explicit: Option<&String>, key: &str) -> (value: String)
        ensures
            value@ == resolved(
                match explicit {
                    Some(given) => Some(given@),
                    None => None,
                },
                self@,
                key@,
            ),
            explicit matches Some(given) ==> value@ == given@,
            explicit is None && self@.contains_key(key@) ==> value@ == self@[key@],
            explicit is None && !self@.contains_key(key@) ==> value@ == Seq::<char>::empty(),
    {
        let config = self.get_file_config();
        let value_from_config: Option<&String> = config.get(key);
        let sources = [explicit, value_from_config];
        proof {
            reveal_with_fuel(first_present, 3);
        }
        resolve(sources.as_slice())
    }

    /// Resolves each of the ten parameters from what the command line gave
    /// and the stored defaults.
    pub fn read_cli_args(&self, given: &CliValues) -> (args: CommandArgs)
        ensures
            args@ == resolved_bundle(given@, self@),
    {
        CommandArgs {
            repo: self.get_config_value(given.repo.as_ref(), "repo"),
            dest: self.get_config_value(given.dest.as_ref(), "dest"),
            src: self.get_config_value(given.src.as_ref(), "src"),
            title: self.get_config_value(given.title.as_ref(), "title"),
            body: self.get_config_value(given.body.as_ref(), "body"),
            labels: self.get_config_value(given.labels.as_ref(), "labels"),
            milestone: self.get_config_value(given.milestone.as_ref(), "milestone"),
            assignees: self.get_config_value(given.assignees.as_ref(), "assignees"),
            projects: self.get_config_value(given.projects.as_ref(), "projects"),
            template: self.get_config_value(given.template.as_ref(), "template"),
        }
    }
}

} // verus!
