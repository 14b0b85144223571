use vstd::prelude::*;
use vstd::string::StringExecFns;

verus! {

/// The possible values of an XDG environment variable.
#[derive(Clone, Debug, PartialEq, Eq)]
pub enum Value {
    /// Environment variable is not set.
    NotPresent,
    /// Environment variable is set to the empty string.
    Empty,
    /// Environment variable is set to a non-blank value.
    Occupied(String),
}

/// The mathematical model of a `Value`: the same three classifications,
/// with the string abstracted to its character sequence.
pub enum ValueView {
    NotPresent,
    Empty,
    Occupied(Seq<char>),
}

impl View for Value {
    type V = ValueView;

    open spec fn view(&self) -> ValueView {
        match self {
            Value::NotPresent => ValueView::NotPresent,
            Value::Empty => ValueView::Empty,
            Value::Occupied(s) => ValueView::Occupied(s@),
        }
    }
}

/// The character sequences of an optional string, for stating contracts
/// over what an environment lookup handed in.
pub open spec fn opt_chars(o: Option<String>) -> Option<Seq<char>> {
    match o {
        Option::Some(s) => Option::Some(s@),
        Option::None => Option::None,
    }
}

/// The tri-state classification of one environment reading: absent when
/// the variable is unset, blank when set to the empty string, occupied
/// otherwise.
pub open spec fn classification(o: Option<Seq<char>>) -> ValueView {
    match o {
        Option::None => ValueView::NotPresent,
        Option::Some(s) => if s.len() == 0 {
            ValueView::Empty
        } else {
            ValueView::Occupied(s)
        },
    }
}

/// Classify one environment reading (`None` when the variable is
/// unset, `Some` of its raw value otherwise) into its tri-state form.
pub fn classify(var: Option<String>) -> (v: Value)
    ensures
        v@ == classification(opt_chars(var)),
{
    match var {
        Option::None => Value::NotPresent,
        Option::Some(s) => {
            if s.as_str().is_empty() {
                Value::Empty
            } else {
                Value::Occupied(s)
            }
        },
    }
}

/// The XDG Base Directory configuration: one classification per
/// variable, in the order fixed by the specification.
#[derive(Clone, Debug, PartialEq, Eq)]
pub struct Config {
    pub xdg_data_home: Value,
    pub xdg_config_home: Value,
    pub xdg_data_dirs: Value,
    pub xdg_config_dirs: Value,
    pub xdg_cache_home: Value,
    pub xdg_runtime_dir: Value,
}

/// The mathematical model of a `Config`.
pub struct ConfigView {
    pub xdg_data_home: ValueView,
    pub xdg_config_home: ValueView,
    pub xdg_data_dirs: ValueView,
    pub xdg_config_dirs: ValueView,
    pub xdg_cache_home: ValueView,
    pub xdg_runtime_dir: ValueView,
}

impl View for Config {
    type V = ConfigView;

    open spec fn view(&self) -> ConfigView {
        ConfigView {
            xdg_data_home: self.xdg_data_home@,
            xdg_config_home: self.xdg_config_home@,
            xdg_data_dirs: self.xdg_data_dirs@,
            xdg_config_dirs: self.xdg_config_dirs@,
            xdg_cache_home: self.xdg_cache_home@,
            xdg_runtime_dir: self.xdg_runtime_dir@,
        }
    }
}

impl Config {
    /// Construct a configuration from the six classifications.
    pub fn new(
        xdg_data_home: Value,
        xdg_config_home: Value,
        xdg_data_dirs: Value,
        xdg_config_dirs: Value,
        xdg_cache_home: Value,
        xdg_runtime_dir: Value,
    ) -> (c: Config)
        ensures
            c.xdg_data_home == xdg_data_home,
            c.xdg_config_home == xdg_config_home,
            c.xdg_data_dirs == xdg_data_dirs,
            c.xdg_config_dirs == xdg_config_dirs,
            c.xdg_cache_home == xdg_cache_home,
            c.xdg_runtime_dir == xdg_runtime_dir,
    {
        Config {
            xdg_data_home,
            xdg_config_home,
            xdg_data_dirs,
            xdg_config_dirs,
            xdg_cache_home,
            xdg_runtime_dir,
        }
    }
}

/// The resolution of one variable against a fallback: the live value
/// where it is occupied, the fallback where it is blank or absent.
pub open spec fn resolution(o: Option<Seq<char>>, fallback: ValueView) -> ValueView {
    match classification(o) {
        ValueView::Occupied(s) => ValueView::Occupied(s),
        ValueView::Empty => fallback,
        ValueView::NotPresent => fallback,
    }
}

/// Resolve one environment reading against a fallback value: a blank
/// reading triggers the fallback just as an absent one does.
pub fn get_env_or_default(var: Option<String>, default: Value) -> (v: Value)
    ensures
        v@ == resolution(opt_chars(var), default@),
{
    match var {
        Option::None => default,
        Option::Some(s) => {
            if s.as_str().is_empty() {
                default
            } else {
                Value::Occupied(s)
            }
        },
    }
}

/// Classify the six environment readings as they stand, with no
/// defaulting: absence and blankness are ordinary outcomes, not errors.
pub fn get_config(
    xdg_data_home: Option<String>,
    xdg_config_home: Option<String>,
    xdg_data_dirs: Option<String>,
    xdg_config_dirs: Option<String>,
    xdg_cache_home: Option<String>,
    xdg_runtime_dir: Option<String>,
) -> (c: Config)
    ensures
        c@.xdg_data_home == classification(opt_chars(xdg_data_home)),
        c@.xdg_config_home == classification(opt_chars(xdg_config_home)),
        c@.xdg_data_dirs == classification(opt_chars(xdg_data_dirs)),
        c@.xdg_config_dirs == classification(opt_chars(xdg_config_dirs)),
        c@.xdg_cache_home == classification(opt_chars(xdg_cache_home)),
        c@.xdg_runtime_dir == classification(opt_chars(xdg_runtime_dir)),
{
    Config::new(
        classify(xdg_data_home),
        classify(xdg_config_home),
        classify(xdg_data_dirs),
        classify(xdg_config_dirs),
        classify(xdg_cache_home),
        classify(xdg_runtime_dir),
    )
}

/// The failures of the defaulting operations.
#[derive(Clone, Copy, Debug, PartialEq, Eq, Structural)]
pub enum XdgError {
    /// `HOME` was unset or blank, so no default path can be formed.
    MissingHomeDirectory,
}

/// Whether a `HOME` reading is usable for forming default paths: it
/// must be set and non-blank.
pub open spec fn home_present(home: Option<Seq<char>>) -> bool {
    classification(home) matches ValueView::Occupied(_)
}

/// The configuration of specification defaults for a given home
/// directory: five mandated paths, and no runtime directory.
pub open spec fn default_view(home: Seq<char>) -> ConfigView {
    ConfigView {
        xdg_data_home: ValueView::Occupied(home + "/.local/share"@),
        xdg_config_home: ValueView::Occupied(home + "/.config"@),
        xdg_data_dirs: ValueView::Occupied("/usr/local/share/:/usr/share/"@),
        xdg_config_dirs: ValueView::Occupied("/etc/xdg"@),
        xdg_cache_home: ValueView::Occupied(home + "/.cache"@),
        xdg_runtime_dir: ValueView::NotPresent,
    }
}

/// The configuration resolved with defaults: each of the five mandated
/// variables keeps its occupied live value or falls back to its default
/// path, and the runtime directory keeps its occupied live value or is
/// reported absent.
pub open spec fn resolved_view(
    home: Seq<char>,
    xdg_data_home: Option<Seq<char>>,
    xdg_config_home: Option<Seq<char>>,
    xdg_data_dirs: Option<Seq<char>>,
    xdg_config_dirs: Option<Seq<char>>,
    xdg_cache_home: Option<Seq<char>>,
    xdg_runtime_dir: Option<Seq<char>>,
) -> ConfigView {
    ConfigView {
        xdg_data_home: resolution(xdg_data_home, ValueView::Occupied(home + "/.local/share"@)),
        xdg_config_home: resolution(xdg_config_home, ValueView::Occupied(home + "/.config"@)),
        xdg_data_dirs: resolution(xdg_data_dirs, ValueView::Occupied("/usr/local/share/:/usr/share/"@)),
        xdg_config_dirs: resolution(xdg_config_dirs, ValueView::Occupied("/etc/xdg"@)),
        xdg_cache_home: resolution(xdg_cache_home, ValueView::Occupied(home + "/.cache"@)),
        xdg_runtime_dir: resolution(xdg_runtime_dir, ValueView::NotPresent),
    }
}

/// Append a fixed suffix to the home directory path.
fn home_with(home: &String, suffix: &str) -> (r: String)
    ensures
        r@ == home@ + suffix@,
{
    let mut r = home.clone();
    r.append(suffix);
    r
}

/// The configuration of specification defaults for the given `HOME`
/// reading, ignoring whatever the six variables hold: five mandated
/// paths, and an absent runtime directory. Fails exactly when `HOME`
/// is unset or blank.
pub fn default_config(home: Option<String>) -> (r: Result<Config, XdgError>)
    ensures
        r matches Ok(c) <==> home_present(opt_chars(home)),
        r matches Ok(c) ==> c@ == default_view(home->Some_0@),
        r matches Err(e) ==> e == XdgError::MissingHomeDirectory,
{
    let home_dir = match classify(home) {
        Value::Occupied(st) => st,
        _ => {
            return Result::Err(XdgError::MissingHomeDirectory);
        },
    };
    Result::Ok(Config::new(
        Value::Occupied(home_with(&home_dir, "/.local/share")),
        Value::Occupied(home_with(&home_dir, "/.config")),
        Value::Occupied(String::from_str("/usr/local/share/:/usr/share/")),
        Value::Occupied(String::from_str("/etc/xdg")),
        Value::Occupied(home_with(&home_dir, "/.cache")),
        Value::NotPresent,
    ))
}

/// Resolve the six environment readings with defaults: an occupied
/// variable keeps its value; a blank or absent one takes its mandated
/// default, except the runtime directory, which has none and is then
/// reported absent. Fails exactly when `HOME` is unset or blank.
pub fn get_config_with_defaults(
    home: Option<String>,
    xdg_data_home: Option<String>,
    xdg_config_home: Option<String>,
    xdg_data_dirs: Option<String>,
    xdg_config_dirs: Option<String>,
    xdg_cache_home: Option<String>,
    xdg_runtime_dir: Option<String>,
) -> (r: Result<Config, XdgError>)
    ensures
        r matches Ok(c) <==> home_present(opt_chars(home)),
        r matches Ok(c) ==> c@ == resolved_view(
            home->Some_0@,
            opt_chars(xdg_data_home),
            opt_chars(xdg_config_home),
            opt_chars(xdg_data_dirs),
            opt_chars(xdg_config_dirs),
            opt_chars(xdg_cache_home),
            opt_chars(xdg_runtime_dir),
        ),
        r matches Err(e) ==> e == XdgError::MissingHomeDirectory,
{
    let home_dir = match classify(home) {
        Value::Occupied(st) => st,
        _ => {
            return Result::Err(XdgError::MissingHomeDirectory);
        },
    };
    let data_home = get_env_or_default(
        xdg_data_home,
        Value::Occupied(home_with(&home_dir, "/.local/share")),
    );
    let config_home = get_env_or_default(
        xdg_config_home,
        Value::Occupied(home_with(&home_dir, "/.config")),
    );
    let data_dirs = get_env_or_default(
        xdg_data_dirs,
        Value::Occupied(String::from_str("/usr/local/share/:/usr/share/")),
    );
    let config_dirs = get_env_or_default(
        xdg_config_dirs,
        Value::Occupied(String::from_str("/etc/xdg")),
    );
    let cache_home = get_env_or_default(
        xdg_cache_home,
        Value::Occupied(home_with(&home_dir, "/.cache")),
    );
    let runtime_dir = get_env_or_default(xdg_runtime_dir, Value::NotPresent);
    Result::Ok(Config::new(
        data_home,
        config_home,
        data_dirs,
        config_dirs,
        cache_home,
        runtime_dir,
    ))
}

/// Whether two environment readings drive defaulting alike: both
/// occupied with the same value, or neither occupied.
pub open spec fn resolution_alike(a: Option<Seq<char>>, b: Option<Seq<char>>) -> bool {
    match (classification(a), classification(b)) {
        (ValueView::Occupied(x), ValueView::Occupied(y)) => x == y,
        (ValueView::Occupied(_), _) => false,
        (_, ValueView::Occupied(_)) => false,
        _ => true,
    }
}

/// Blank and absent readings are equivalent triggers for defaulting:
/// two environments whose readings agree on every occupied value, and
/// are otherwise blank or absent in any mixture, resolve with defaults
/// to the same configuration.
pub proof fn lemma_blank_equals_absent(
    home: Seq<char>,
    a_data_home: Option<Seq<char>>,
    a_config_home: Option<Seq<char>>,
    a_data_dirs: Option<Seq<char>>,
    a_config_dirs: Option<Seq<char>>,
    a_cache_home: Option<Seq<char>>,
    a_runtime_dir: Option<Seq<char>>,
    b_data_home: Option<Seq<char>>,
    b_config_home: Option<Seq<char>>,
    b_data_dirs: Option<Seq<char>>,
    b_config_dirs: Option<Seq<char>>,
    b_cache_home: Option<Seq<char>>,
    b_runtime_dir: Option<Seq<char>>,
)
    requires
        resolution_alike(a_data_home, b_data_home),
        resolution_alike(a_config_home, b_config_home),
        resolution_alike(a_data_dirs, b_data_dirs),
        resolution_alike(a_config_dirs, b_config_dirs),
        resolution_alike(a_cache_home, b_cache_home),
        resolution_alike(a_runtime_dir, b_runtime_dir),
    ensures
        resolved_view(
            home,
            a_data_home,
            a_config_home,
            a_data_dirs,
            a_config_dirs,
            a_cache_home,
            a_runtime_dir,
        ) == resolved_view(
            home,
            b_data_home,
            b_config_home,
            b_data_dirs,
            b_config_dirs,
            b_cache_home,
            b_runtime_dir,
        ),
{
}

/// The default configuration is exactly what resolving with defaults
/// yields on an environment where every variable is absent.
pub proof fn lemma_default_is_resolution_of_empty_env(home: Seq<char>)
    ensures
        default_view(home) == resolved_view(
            home,
            Option::<Seq<char>>::None,
            Option::<Seq<char>>::None,
            Option::<Seq<char>>::None,
            Option::<Seq<char>>::None,
            Option::<Seq<char>>::None,
            Option::<Seq<char>>::None,
        ),
{
}

/// No default is ever substituted for the runtime directory: under
/// defaulting it keeps its occupied live value, and is reported absent
/// on a blank or unset reading.
pub proof fn lemma_runtime_dir_never_defaulted(
    home: Seq<char>,
    xdg_data_home: Option<Seq<char>>,
    xdg_config_home: Option<Seq<char>>,
    xdg_data_dirs: Option<Seq<char>>,
    xdg_config_dirs: Option<Seq<char>>,
    xdg_cache_home: Option<Seq<char>>,
    xdg_runtime_dir: Option<Seq<char>>,
)
    ensures
        resolved_view(
            home,
            xdg_data_home,
            xdg_config_home,
            xdg_data_dirs,
            xdg_config_dirs,
            xdg_cache_home,
            xdg_runtime_dir,
        ).xdg_runtime_dir == (match classification(xdg_runtime_dir) {
            ValueView::Occupied(s) => ValueView::Occupied(s),
            ValueView::Empty => ValueView::NotPresent,
            ValueView::NotPresent => ValueView::NotPresent,
        }),
{
}

/// Under defaulting, none of the five mandated variables is ever
/// reported blank or absent: each is occupied, from the environment or
/// from its fallback path.
pub proof fn lemma_defaultable_fields_always_occupied(
    home: Seq<char>,
    xdg_data_home: Option<Seq<char>>,
    xdg_config_home: Option<Seq<char>>,
    xdg_data_dirs: Option<Seq<char>>,
    xdg_config_dirs: Option<Seq<char>>,
    xdg_cache_home: Option<Seq<char>>,
    xdg_runtime_dir: Option<Seq<char>>,
)
    ensures
        ({
            let c = resolved_view(
                home,
                xdg_data_home,
                xdg_config_home,
                xdg_data_dirs,
                xdg_config_dirs,
                xdg_cache_home,
                xdg_runtime_dir,
            );
            &&& c.xdg_data_home matches ValueView::Occupied(_)
            &&& c.xdg_config_home matches ValueView::Occupied(_)
            &&& c.xdg_data_dirs matches ValueView::Occupied(_)
            &&& c.xdg_config_dirs matches ValueView::Occupied(_)
            &&& c.xdg_cache_home matches ValueView::Occupied(_)
        }),
{
}

/// The text of a classification: the value where occupied, empty where
/// blank or absent.
pub open spec fn text_of(v: ValueView) -> Seq<char> {
    match v {
        ValueView::NotPresent => Seq::<char>::empty(),
        ValueView::Empty => Seq::<char>::empty(),
        ValueView::Occupied(s) => s,
    }
}

impl Value {
    /// The textual form of a classification: blank and absent both
    /// render as the empty string.
    pub fn render(&self) -> (r: String)
        ensures
            r@ == text_of(self@),
    {
        match self {
            Value::NotPresent => String::new(),
            Value::Empty => String::new(),
            Value::Occupied(st) => st.clone(),
        }
    }
}

/// The canonical textual form of a configuration: one `KEY=VALUE` line
/// per variable, in the fixed order of the specification.
pub open spec fn render_view(c: ConfigView) -> Seq<char> {
    "XDG_DATA_HOME="@ + text_of(c.xdg_data_home) + "\n"@
        + "XDG_CONFIG_HOME="@ + text_of(c.xdg_config_home) + "\n"@
        + "XDG_DATA_DIRS="@ + text_of(c.xdg_data_dirs) + "\n"@
        + "XDG_CONFIG_DIRS="@ + text_of(c.xdg_config_dirs) + "\n"@
        + "XDG_CACHE_HOME="@ + text_of(c.xdg_cache_home) + "\n"@
        + "XDG_RUNTIME_DIR="@ + text_of(c.xdg_runtime_dir) + "\n"@
}

impl Config {
    /// Render the configuration in its canonical multi-line form.
    pub fn render(&self) -> (r: String)
        ensures
            r@ == render_view(self@),
    {
        let mut r = String::new();
        r.append("XDG_DATA_HOME=");
        r.append(self.xdg_data_home.render().as_str());
        r.append("\n");
        r.append("XDG_CONFIG_HOME=");
        r.append(self.xdg_config_home.render().as_str());
        r.append("\n");
        r.append("XDG_DATA_DIRS=");
        r.append(self.xdg_data_dirs.render().as_str());
        r.append("\n");
        r.append("XDG_CONFIG_DIRS=");
        r.append(self.xdg_config_dirs.render().as_str());
        r.append("\n");
        r.append("XDG_CACHE_HOME=");
        r.append(self.xdg_cache_home.render().as_str());
        r.append("\n");
        r.append("XDG_RUNTIME_DIR=");
        r.append(self.xdg_runtime_dir.render().as_str());
        r.append("\n");
        proof {
            assert(r@ =~= render_view(self@));
        }
        r
    }
}

} // verus!
