//! Preset policy and install planning: preset rules matched by shell-style
//! globs decide whether a unit file is enabled or disabled, and the install
//! contexts plan the symlinks to create or remove.  Walking directories and
//! touching the filesystem belong to the caller; everything here computes.

use crate::records::{clone_strings, UeConfigInstall};
use crate::strutil::{spec_first_nonspace, spec_split_ws};
use vstd::prelude::*;

verus! {

/// Whether the glob-to-regex translation accepts the pattern; a function
/// of the pattern alone.
pub uninterp spec fn glob_ok(p: Seq<char>) -> bool;

/// Whether the glob pattern matches the text; a function of pattern and
/// text alone.
pub uninterp spec fn glob_matches(p: Seq<char>, t: Seq<char>) -> bool;

/// Relies on fnmatch_regex::glob_to_regex, which turns a shell glob into a
/// regular expression or rejects it on a syntax error, and on
/// regex::Regex::is_match over the translated pattern; both results depend
/// on their string arguments alone.
#[verifier::external_body]
fn glob_match(pattern: &str, text: &str) -> (r: Option<bool>)
    ensures
        (r is Some) == glob_ok(pattern@),
        (r == Some(true)) == (glob_ok(pattern@) && glob_matches(pattern@, text@)),
{
    match fnmatch_regex::glob_to_regex(pattern) {
        Ok(re) => Some(re.is_match(text)),
        Err(_) => None,
    }
}

/// What a preset rule decides for a unit.
#[derive(Clone, Copy, Debug, PartialEq, Eq, Structural)]
pub enum PresetAction {
    /// Enable the unit.
    Enable,
    /// Disable the unit.
    Disable,
    /// No rule speaks for the unit.
    Unknown,
}

/// What a preset file's action word means; anything but the two known
/// words decides nothing.
pub open spec fn spec_action_word(w: Seq<char>) -> PresetAction {
    if w == "enable"@ {
        PresetAction::Enable
    } else if w == "disable"@ {
        PresetAction::Disable
    } else {
        PresetAction::Unknown
    }
}

impl PresetAction {
    /// Parse a preset file's action word.
    pub fn from_str(s: &str) -> (r: PresetAction)
        ensures
            r == spec_action_word(s@),
    {
        if s.to_owned() == "enable".to_owned() {
            PresetAction::Enable
        } else if s.to_owned() == "disable".to_owned() {
            PresetAction::Disable
        } else {
            PresetAction::Unknown
        }
    }
}

/// One preset rule: an action and the glob naming the units it covers.
#[derive(Debug)]
pub struct PresetRule {
    /// The action.
    pub action: PresetAction,
    /// The glob pattern over unit names.
    pub unit: String,
}

impl PresetRule {
    /// A rule from its parts.
    pub fn new(action: PresetAction, unit: String) -> (r: PresetRule)
        ensures
            r.action == action,
            r.unit@ == unit@,
    {
        PresetRule { action, unit }
    }
}

/// What the rules from index `k` on decide for a unit: the first rule
/// whose pattern compiles and matches wins; a pattern that does not
/// compile is passed over.
pub open spec fn rules_action_from(rules: Seq<PresetRule>, unit: Seq<char>, k: int) -> PresetAction
    decreases rules.len() - k,
{
    if k < 0 || k >= rules.len() {
        PresetAction::Unknown
    } else if glob_ok(rules[k].unit@) && glob_matches(rules[k].unit@, unit) {
        rules[k].action
    } else {
        rules_action_from(rules, unit, k + 1)
    }
}

/// The preset policy: rules in file order.
#[derive(Debug)]
pub struct Presets {
    /// The rules, first file's first rule first.
    pub rules: Vec<PresetRule>,
}

impl Presets {
    /// An empty policy.
    pub fn new() -> (r: Presets)
        ensures
            r.rules@.len() == 0,
    {
        Presets { rules: Vec::new() }
    }

    /// What the policy decides for a unit: the first rule whose glob
    /// matches wins, and with no matching rule nothing is decided.
    pub fn unit_preset_action(&self, unit: String) -> (r: PresetAction)
        ensures
            r == rules_action_from(self.rules@, unit@, 0),
    {
        let mut i: usize = 0;
        let n = self.rules.len();
        while i < n
            invariant
                n == self.rules@.len(),
                i <= n,
                rules_action_from(self.rules@, unit@, 0) == rules_action_from(
                    self.rules@,
                    unit@,
                    i as int,
                ),
            decreases n - i,
        {
            match glob_match(self.rules[i].unit.as_str(), unit.as_str()) {
                Some(true) => {
                    return self.rules[i].action;
                }
                _ => {
                }
            }
            i = i + 1;
        }
        PresetAction::Unknown
    }

    /// Append a rule.
    pub fn add_rule(&mut self, rule: PresetRule)
        ensures
            final(self).rules@ == old(self).rules@.push(rule),
    {
        self.rules.push(rule)
    }
}

/// What one preset file line contributes: nothing for a comment or for
/// anything but exactly two words, else the action word and the pattern.
pub open spec fn spec_line_rule(l: Seq<char>) -> Option<(PresetAction, Seq<char>)> {
    if spec_first_nonspace(l) == Some('#') {
        None
    } else {
        let t = spec_split_ws(l);
        if t.len() != 2 {
            None
        } else {
            Some((spec_action_word(t[0]), t[1]))
        }
    }
}

/// The rules the first `k` lines contribute, in order.
pub open spec fn spec_rules_prefix(lines: Seq<String>, k: int) -> Seq<(PresetAction, Seq<char>)>
    decreases k,
{
    if k <= 0 {
        Seq::empty()
    } else {
        match spec_line_rule(lines[k - 1]@) {
            Some(rule) => spec_rules_prefix(lines, k - 1).push(rule),
            None => spec_rules_prefix(lines, k - 1),
        }
    }
}

/// The policy the lines of the preset files spell out, read in order:
/// comment lines and lines without exactly an action word and a pattern
/// are passed over.
pub fn read_presets_from_lines(lines: &Vec<String>) -> (r: Presets)
    ensures
        r.rules@.len() == spec_rules_prefix(lines@, lines@.len() as int).len(),
        forall|j: int|
            0 <= j < r.rules@.len() ==> ((#[trigger] r.rules@[j]).action == spec_rules_prefix(
                lines@,
                lines@.len() as int,
            )[j].0 && r.rules@[j].unit@ == spec_rules_prefix(lines@, lines@.len() as int)[j].1),
{
    let mut presets = Presets::new();
    let mut i: usize = 0;
    while i < lines.len()
        invariant
            i <= lines@.len(),
            presets.rules@.len() == spec_rules_prefix(lines@, i as int).len(),
            forall|j: int|
                0 <= j < presets.rules@.len() ==> ((#[trigger] presets.rules@[j]).action
                    == spec_rules_prefix(lines@, i as int)[j].0 && presets.rules@[j].unit@
                    == spec_rules_prefix(lines@, i as int)[j].1),
        decreases lines.len() - i,
    {
        let line = &lines[i];
        let is_comment = match crate::strutil::first_nonspace(line.as_str()) {
            Some(c) => c == '#',
            None => false,
        };
        if !is_comment {
            let contents = crate::strutil::split_whitespace(line.as_str());
            if contents.len() == 2 {
                let action = PresetAction::from_str(contents[0].as_str());
                let pattern = contents[1].clone();
                proof {
                    assert(contents.deep_view()[0] == contents@[0]@);
                    assert(contents.deep_view()[1] == contents@[1]@);
                }
                presets.add_rule(PresetRule::new(action, pattern));
            }
        }
        i = i + 1;
    }
    presets
}

/// Whether presets are being applied in enabling or disabling mode.
#[derive(Clone, Copy, Debug, PartialEq, Eq, Structural)]
pub enum PresetMode {
    /// Enable what the rules enable.
    Enable,
    /// Disable what the rules disable.
    Disable,
}

/// What kind of file a unit file turned out to be.
#[derive(Clone, Copy, Debug, PartialEq, Eq, Structural)]
pub enum UnitFileType {
    /// An ordinary, non-empty file.
    Regular,
    /// A symlink.
    Symlink,
    /// An empty file, masking the unit.
    Masked,
    /// Not looked up yet.
    Invalid,
}

/// One unit's install data, filled from its install section during
/// discovery.
#[derive(Debug)]
pub struct UnitInstall {
    /// The unit's name.
    pub name: String,
    /// The path its file was found under.
    pub path: String,
    /// Additional names.
    pub aliases: Vec<String>,
    /// Targets that want it.
    pub wanted_by: Vec<String>,
    /// Targets that require it.
    pub required_by: Vec<String>,
    /// Units installed together with it.
    pub also: Vec<String>,
    /// What kind of file it is.
    pub u_type: UnitFileType,
}

impl UnitInstall {
    /// A fresh install record for a unit nothing is known about.
    pub fn new(unit: &str) -> (r: UnitInstall)
        ensures
            r.name@ == unit@,
            r.path@.len() == 0,
            r.aliases@.len() == 0,
            r.wanted_by@.len() == 0,
            r.required_by@.len() == 0,
            r.also@.len() == 0,
            r.u_type is Invalid,
    {
        UnitInstall {
            name: unit.to_owned(),
            path: String::new(),
            aliases: Vec::new(),
            wanted_by: Vec::new(),
            required_by: Vec::new(),
            also: Vec::new(),
            u_type: UnitFileType::Invalid,
        }
    }

    /// What kind of file the unit is.
    pub fn u_type(&self) -> (r: UnitFileType)
        ensures
            r == self.u_type,
    {
        self.u_type
    }

    /// Record what kind of file the unit is.
    pub fn set_u_type(&mut self, t: UnitFileType)
        ensures
            *final(self) == (UnitInstall { u_type: t, ..*old(self) }),
    {
        self.u_type = t;
    }

    /// The unit's name.
    pub fn name(&self) -> (r: String)
        ensures
            r@ == self.name@,
    {
        self.name.clone()
    }

    /// The path its file was found under.
    pub fn path(&self) -> (r: String)
        ensures
            r@ == self.path@,
    {
        self.path.clone()
    }

    /// Record the path its file was found under.
    pub fn set_path(&mut self, path: String)
        ensures
            *final(self) == (UnitInstall { path, ..*old(self) }),
    {
        self.path = path;
    }

    /// Take over the unit's install section: aliases, wanted-by,
    /// required-by and also lists are appended in order.
    pub fn fill_struct(&mut self, config: &UeConfigInstall)
        ensures
            final(self).name == old(self).name,
            final(self).path == old(self).path,
            final(self).u_type == old(self).u_type,
            final(self).aliases.deep_view() == old(self).aliases.deep_view() + config@.alias,
            final(self).wanted_by.deep_view() == old(self).wanted_by.deep_view()
                + config@.wanted_by,
            final(self).required_by.deep_view() == old(self).required_by.deep_view()
                + config@.required_by,
            final(self).also.deep_view() == old(self).also.deep_view() + config@.also,
    {
        let ghost a0 = self.aliases.deep_view();
        let ghost w0 = self.wanted_by.deep_view();
        let ghost r0 = self.required_by.deep_view();
        let ghost o0 = self.also.deep_view();
        let mut add = clone_strings(&config.alias);
        self.aliases.append(&mut add);
        let mut add = clone_strings(&config.wanted_by);
        self.wanted_by.append(&mut add);
        let mut add = clone_strings(&config.required_by);
        self.required_by.append(&mut add);
        let mut add = clone_strings(&config.also);
        self.also.append(&mut add);
        proof {
            assert(self.aliases.deep_view() =~= a0 + config@.alias);
            assert(self.wanted_by.deep_view() =~= w0 + config@.wanted_by);
            assert(self.required_by.deep_view() =~= r0 + config@.required_by);
            assert(self.also.deep_view() =~= o0 + config@.also);
        }
    }

    /// The targets that want the unit.
    pub fn wanted_by(&self) -> (r: Vec<String>)
        ensures
            r.deep_view() == self.wanted_by.deep_view(),
    {
        clone_strings(&self.wanted_by)
    }

    /// The targets that require the unit.
    pub fn required_by(&self) -> (r: Vec<String>)
        ensures
            r.deep_view() == self.required_by.deep_view(),
    {
        clone_strings(&self.required_by)
    }

    /// The unit's aliases.
    pub fn alias(&self) -> (r: Vec<String>)
        ensures
            r.deep_view() == self.aliases.deep_view(),
    {
        clone_strings(&self.aliases)
    }
}

} // verus!
