//! The rule store and the resolver that picks a command for a file.
//!
//! A mapping sends a file extension, or the wildcard `"*"`, to an ordered list
//! of matcher names. A matcher names a command and may carry a file-name
//! pattern (`regexf`) and a content pattern (`regexc`). Resolution tries the
//! matchers of the selected mapping tier by tier (name-only, name and
//! content, content-only, unconditional), each tier in mapping order, and
//! returns the command of the first matcher that matches.
//!
//! File content is read lazily by the caller: when the first matcher that
//! needs it is reached and the content has not been read yet, resolution
//! stops with [`Resolution::NeedsContent`]; the caller reads the file once
//! and resolves again with the text, or with the news that it could not be
//! read.

use vstd::prelude::*;
use crate::flags::FlagValue;
use crate::pattern::{compile_pattern, pattern_is_match, regex_compiles, regex_matches};
use crate::paths::{extension_of, file_name_of, path_extension, path_file_name};
use crate::table::NameMap;

verus! {

/// Why no command could be chosen for a file.
#[derive(Clone, Copy, Debug, PartialEq, Eq, Structural)]
pub enum FindCommandError {
    /// The path has no final component to take a file name from.
    CannotConvertPath,
    /// Neither the file's extension nor the wildcard has a mapping.
    NoMappingFound,
    /// A mapping was found, but none of its matchers matched the file.
    NoMatchFound,
}

impl FindCommandError {
    /// A sentence that describes the error.
    pub fn message(&self) -> (r: &'static str)
        ensures
            r@ == match *self {
                FindCommandError::CannotConvertPath =>
                    "Could not convert the path of the file into a string."@,
                FindCommandError::NoMappingFound => "No mapping could map the file to a matcher."@,
                FindCommandError::NoMatchFound => "No matcher could match the file to a command."@,
            },
    {
        match self {
            FindCommandError::CannotConvertPath =>
                "Could not convert the path of the file into a string.",
            FindCommandError::NoMappingFound => "No mapping could map the file to a matcher.",
            FindCommandError::NoMatchFound => "No matcher could match the file to a command.",
        }
    }
}

/// Why a matcher's pattern could not be applied.
#[derive(Debug)]
pub enum MatcherError {
    /// The pattern is not a valid regular expression.
    RegexCompileError(regex::Error),
    /// The matcher has no pattern of that kind.
    NoRegexError,
}

/// Security attributes for the new process or its primary thread. An
/// absent field keeps the native default (no descriptor, no inheritance).
#[derive(Clone, Copy, Debug, PartialEq, Eq, Structural)]
pub struct SecurityAttributes {
    pub security_descriptor: Option<isize>,
    pub inherit_handle: Option<bool>,
}

/// Window and console settings of a command's startup information. Every
/// field is optional: an absent one leaves the native default in place.
#[derive(Debug)]
pub struct Extras {
    pub desktop: Option<String>,
    pub title: Option<String>,
    pub x: Option<u32>,
    pub y: Option<u32>,
    pub x_size: Option<u32>,
    pub y_size: Option<u32>,
    pub x_count_chars: Option<u32>,
    pub y_count_chars: Option<u32>,
    pub fill_attribute: Option<Vec<FlagValue>>,
    pub fill_attribute_append: Option<bool>,
    pub flags: Option<Vec<FlagValue>>,
    pub flags_append: Option<bool>,
    pub show_window: Option<Vec<FlagValue>>,
}

/// A command to launch: the executable, its arguments and working
/// directory, and how the process is to be created.
#[derive(Debug)]
pub struct Command {
    pub path: String,
    pub arguments: Option<String>,
    pub cwd: Option<String>,
    pub process_attributes: Option<SecurityAttributes>,
    pub thread_attributes: Option<SecurityAttributes>,
    pub inherit_handles: Option<bool>,
    pub creation_flags: Option<Vec<FlagValue>>,
    pub creation_flags_append: Option<bool>,
    pub extras: Option<Extras>,
}

/// Whether two optional flag lists hold the same elements in the same order.
pub open spec fn same_flags(a: Option<Vec<FlagValue>>, b: Option<Vec<FlagValue>>) -> bool {
    match (a, b) {
        (Some(x), Some(y)) => x@ == y@,
        (None, None) => true,
        _ => false,
    }
}

/// Whether two extras hold the same settings, the two strings aside.
pub open spec fn same_extras_but_text(a: Extras, b: Extras) -> bool {
    &&& a.x == b.x
    &&& a.y == b.y
    &&& a.x_size == b.x_size
    &&& a.y_size == b.y_size
    &&& a.x_count_chars == b.x_count_chars
    &&& a.y_count_chars == b.y_count_chars
    &&& same_flags(a.fill_attribute, b.fill_attribute)
    &&& a.fill_attribute_append == b.fill_attribute_append
    &&& same_flags(a.flags, b.flags)
    &&& a.flags_append == b.flags_append
    &&& same_flags(a.show_window, b.show_window)
}

/// Whether two commands hold the same settings, the strings and the extras
/// aside.
pub open spec fn same_command_settings(a: Command, b: Command) -> bool {
    &&& a.process_attributes == b.process_attributes
    &&& a.thread_attributes == b.thread_attributes
    &&& a.inherit_handles == b.inherit_handles
    &&& same_flags(a.creation_flags, b.creation_flags)
    &&& a.creation_flags_append == b.creation_flags_append
}

pub(crate) fn clone_flags(o: &Option<Vec<FlagValue>>) -> (r: Option<Vec<FlagValue>>)
    ensures
        same_flags(r, *o),
{
    match o {
        Some(v) => {
            let mut c: Vec<FlagValue> = Vec::new();
            let mut i: usize = 0;
            while i < v.len()
                invariant
                    i <= v@.len(),
                    c@ == v@.subrange(0, i as int),
                decreases v@.len() - i,
            {
                c.push(v[i].clone());
                i += 1;
                assert(c@ =~= v@.subrange(0, i as int));
            }
            assert(v@.subrange(0, v@.len() as int) =~= v@);
            Some(c)
        },
        None => None,
    }
}

pub(crate) fn clone_text(o: &Option<String>) -> (r: Option<String>)
    ensures
        r == *o,
{
    match o {
        Some(s) => Some(s.clone()),
        None => None,
    }
}

impl Clone for Extras {
    fn clone(&self) -> (r: Self)
        ensures
            r.desktop == self.desktop,
            r.title == self.title,
            same_extras_but_text(r, *self),
    {
        Extras {
            desktop: clone_text(&self.desktop),
            title: clone_text(&self.title),
            x: self.x,
            y: self.y,
            x_size: self.x_size,
            y_size: self.y_size,
            x_count_chars: self.x_count_chars,
            y_count_chars: self.y_count_chars,
            fill_attribute: clone_flags(&self.fill_attribute),
            fill_attribute_append: self.fill_attribute_append,
            flags: clone_flags(&self.flags),
            flags_append: self.flags_append,
            show_window: clone_flags(&self.show_window),
        }
    }
}

impl Clone for Command {
    fn clone(&self) -> (r: Self)
        ensures
            r.path == self.path,
            r.arguments == self.arguments,
            r.cwd == self.cwd,
            same_command_settings(r, *self),
            r.extras is Some == self.extras is Some,
            self.extras matches Some(e) ==> r.extras->Some_0.desktop == e.desktop
                && r.extras->Some_0.title == e.title && same_extras_but_text(r.extras->Some_0, e),
    {
        let extras = match &self.extras {
            Some(e) => Some(e.clone()),
            None => None,
        };
        Command {
            path: self.path.clone(),
            arguments: clone_text(&self.arguments),
            cwd: clone_text(&self.cwd),
            process_attributes: self.process_attributes,
            thread_attributes: self.thread_attributes,
            inherit_handles: self.inherit_handles,
            creation_flags: clone_flags(&self.creation_flags),
            creation_flags_append: self.creation_flags_append,
            extras,
        }
    }
}

/// A named rule: the command it selects and the patterns a file must match.
#[derive(Debug)]
pub struct Matcher {
    pub command: String,
    pub regexf: Option<String>,
    pub regexc: Option<String>,
}

/// The four priority classes of matchers, in the order they are tried.
#[derive(Clone, Copy, Debug, PartialEq, Eq, Structural)]
pub enum Tier {
    /// A file-name pattern only.
    NameOnly,
    /// Both a file-name and a content pattern.
    NameAndContent,
    /// A content pattern only.
    ContentOnly,
    /// No pattern: matches every file that reaches it.
    Unconditional,
}

pub open spec fn tier_of(m: Matcher) -> Tier {
    if m.regexf is Some {
        if m.regexc is Some { Tier::NameAndContent } else { Tier::NameOnly }
    } else {
        if m.regexc is Some { Tier::ContentOnly } else { Tier::Unconditional }
    }
}

/// Whether an optional pattern, if present, compiles and matches the text.
pub open spec fn pattern_holds(pattern: Option<String>, text: Seq<char>) -> bool {
    match pattern {
        Some(p) => regex_compiles(p@) && regex_matches(p@, text),
        None => true,
    }
}

/// What the caller knows of the target file's content.
#[derive(Debug)]
pub enum FileContent {
    /// The file has not been read yet.
    Unread,
    /// Reading the file failed; content patterns cannot match.
    Unavailable,
    /// The full text of the file.
    Text(String),
}

/// The outcome of trying one matcher against a file.
#[derive(Clone, Copy, Debug, PartialEq, Eq, Structural)]
pub enum RuleCheck {
    Miss,
    NeedsContent,
    Hit,
}

/// Tries one matcher: its file-name pattern first, and only when that
/// matches, its content pattern. A pattern that does not compile matches
/// nothing.
pub open spec fn rule_check(m: Matcher, file_name: Seq<char>, content: FileContent) -> RuleCheck {
    if !pattern_holds(m.regexf, file_name) {
        RuleCheck::Miss
    } else if m.regexc is None {
        RuleCheck::Hit
    } else {
        match content {
            FileContent::Unread => RuleCheck::NeedsContent,
            FileContent::Unavailable => RuleCheck::Miss,
            FileContent::Text(t) => if pattern_holds(m.regexc, t@) {
                RuleCheck::Hit
            } else {
                RuleCheck::Miss
            },
        }
    }
}

impl Matcher {
    /// The tier this matcher is tried in.
    pub fn tier(&self) -> (r: Tier)
        ensures
            r == tier_of(*self),
    {
        match (&self.regexf, &self.regexc) {
            (Some(_), None) => Tier::NameOnly,
            (Some(_), Some(_)) => Tier::NameAndContent,
            (None, Some(_)) => Tier::ContentOnly,
            (None, None) => Tier::Unconditional,
        }
    }

    fn rmatch_file(regstr: &Option<String>, content: &str) -> (r: Result<bool, MatcherError>)
        ensures
            match *regstr {
                None => r matches Err(MatcherError::NoRegexError),
                Some(p) => if regex_compiles(p@) {
                    r == Ok::<bool, MatcherError>(regex_matches(p@, content@))
                } else {
                    r matches Err(MatcherError::RegexCompileError(_))
                },
            },
    {
        match regstr {
            None => Err(MatcherError::NoRegexError),
            Some(p) => match compile_pattern(p.as_str()) {
                Ok(c) => Ok(pattern_is_match(&c, content)),
                Err(e) => Err(MatcherError::RegexCompileError(e)),
            },
        }
    }

    /// Whether the file-name pattern matches anywhere in `file_name`.
    pub fn rmatch_file_name(&self, file_name: String) -> (r: Result<bool, MatcherError>)
        ensures
            match self.regexf {
                None => r matches Err(MatcherError::NoRegexError),
                Some(p) => if regex_compiles(p@) {
                    r == Ok::<bool, MatcherError>(regex_matches(p@, file_name@))
                } else {
                    r matches Err(MatcherError::RegexCompileError(_))
                },
            },
    {
        Matcher::rmatch_file(&self.regexf, file_name.as_str())
    }

    /// Whether the content pattern matches anywhere in `file_content`.
    pub fn rmatch_file_content(&self, file_content: &String) -> (r: Result<bool, MatcherError>)
        ensures
            match self.regexc {
                None => r matches Err(MatcherError::NoRegexError),
                Some(p) => if regex_compiles(p@) {
                    r == Ok::<bool, MatcherError>(regex_matches(p@, file_content@))
                } else {
                    r matches Err(MatcherError::RegexCompileError(_))
                },
            },
    {
        Matcher::rmatch_file(&self.regexc, file_content.as_str())
    }

    /// Tries this matcher against a file; see [`rule_check`].
    pub fn check(&self, file_name: &String, content: &FileContent) -> (r: RuleCheck)
        ensures
            r == rule_check(*self, file_name@, *content),
    {
        let name_ok = match &self.regexf {
            None => true,
            Some(_) => match self.rmatch_file_name(file_name.clone()) {
                Ok(b) => b,
                Err(_) => false,
            },
        };
        if !name_ok {
            return RuleCheck::Miss;
        }
        if self.regexc.is_none() {
            return RuleCheck::Hit;
        }
        match content {
            FileContent::Unread => RuleCheck::NeedsContent,
            FileContent::Unavailable => RuleCheck::Miss,
            FileContent::Text(t) => match self.rmatch_file_content(t) {
                Ok(true) => RuleCheck::Hit,
                _ => RuleCheck::Miss,
            },
        }
    }
}


/// The rule store: mappings from extensions to matcher names, the matchers,
/// and the commands they select. A name that a mapping or a matcher refers
/// to need not exist; such references are skipped.
pub struct FassocRules {
    pub mappings: NameMap<Vec<String>>,
    pub matchers: NameMap<Matcher>,
    pub commands: NameMap<Command>,
}

/// How far resolution got, in specifications.
pub enum Step {
    /// No matcher matched.
    Miss,
    /// A matcher that needs the file's content was reached before any match.
    NeedsContent,
    /// The command of the first matcher that matched.
    Found(Command),
}

/// What a successful resolution call yields.
#[derive(Debug)]
pub enum Resolution<'a> {
    /// The command chosen for the file.
    Found(&'a Command),
    /// The file's content is needed to go on: read it once and resolve again.
    NeedsContent,
}

pub open spec fn resolution_step<'a>(r: Result<Resolution<'a>, FindCommandError>) -> Result<Step, FindCommandError> {
    match r {
        Ok(Resolution::Found(c)) => Ok(Step::Found(*c)),
        Ok(Resolution::NeedsContent) => Ok(Step::NeedsContent),
        Err(e) => Err(e),
    }
}

pub open spec fn scan_step<'a>(r: Option<Resolution<'a>>) -> Step {
    match r {
        Some(Resolution::Found(c)) => Step::Found(*c),
        Some(Resolution::NeedsContent) => Step::NeedsContent,
        None => Step::Miss,
    }
}

pub open spec fn text_opt(o: Option<&str>) -> Option<Seq<char>> {
    match o {
        Some(s) => Some(s@),
        None => None,
    }
}

impl FassocRules {
    /// The matcher under `name`, with the command it selects, when both exist.
    pub open spec fn candidate(&self, name: Seq<char>) -> Option<(Matcher, Command)> {
        match self.matchers.spec_get(name) {
            Some(m) => match self.commands.spec_get(m.command@) {
                Some(c) => Some((m, c)),
                None => None,
            },
            None => None,
        }
    }

    /// Tries, in order, the matchers of one tier among `names`.
    pub open spec fn scan_tier(
        &self,
        names: Seq<String>,
        tier: Tier,
        file_name: Seq<char>,
        content: FileContent,
    ) -> Step
        decreases names.len(),
    {
        if names.len() == 0 {
            Step::Miss
        } else {
            let rest = self.scan_tier(names.drop_first(), tier, file_name, content);
            match self.candidate(names[0]@) {
                Some(mc) => if tier_of(mc.0) != tier {
                    rest
                } else {
                    match rule_check(mc.0, file_name, content) {
                        RuleCheck::Miss => rest,
                        RuleCheck::NeedsContent => Step::NeedsContent,
                        RuleCheck::Hit => Step::Found(mc.1),
                    }
                },
                None => rest,
            }
        }
    }

    /// Tries the tiers in order, stopping at the first that does not miss.
    pub open spec fn scan_tiers(&self, names: Seq<String>, file_name: Seq<char>, content: FileContent) -> Step {
        let a = self.scan_tier(names, Tier::NameOnly, file_name, content);
        let b = self.scan_tier(names, Tier::NameAndContent, file_name, content);
        let c = self.scan_tier(names, Tier::ContentOnly, file_name, content);
        let d = self.scan_tier(names, Tier::Unconditional, file_name, content);
        if !(a is Miss) { a } else if !(b is Miss) { b } else if !(c is Miss) { c } else { d }
    }

    /// The mapping for the extension if there is one, else the wildcard's.
    pub open spec fn selected_mapping(&self, extension: Option<Seq<char>>) -> Option<Vec<String>> {
        let by_extension = match extension {
            Some(e) => self.mappings.spec_get(e),
            None => None,
        };
        match by_extension {
            Some(v) => Some(v),
            None => self.mappings.spec_get("*"@),
        }
    }

    /// Resolution of a file with the given name and extension.
    pub open spec fn resolve_spec(
        &self,
        file_name: Seq<char>,
        extension: Option<Seq<char>>,
        content: FileContent,
    ) -> Result<Step, FindCommandError> {
        match self.selected_mapping(extension) {
            None => Err(FindCommandError::NoMappingFound),
            Some(names) => match self.scan_tiers(names@, file_name, content) {
                Step::Miss => Err(FindCommandError::NoMatchFound),
                s => Ok(s),
            },
        }
    }

    /// An empty rule store.
    pub fn new() -> (r: Self)
        ensures
            forall|k: Seq<char>| r.mappings.spec_get(k) is None,
            forall|k: Seq<char>| r.matchers.spec_get(k) is None,
            forall|k: Seq<char>| r.commands.spec_get(k) is None,
    {
        FassocRules { mappings: NameMap::new(), matchers: NameMap::new(), commands: NameMap::new() }
    }

    fn scan<'a>(
        &'a self,
        names: &Vec<String>,
        tier: Tier,
        file_name: &String,
        content: &FileContent,
    ) -> (r: Option<Resolution<'a>>)
        ensures
            scan_step(r) == self.scan_tier(names@, tier, file_name@, *content),
    {
        let n = names.len();
        let mut i: usize = 0;
        assert(names@.subrange(0, n as int) =~= names@);
        while i < n
            invariant
                n == names@.len(),
                i <= n,
                self.scan_tier(names@, tier, file_name@, *content) == self.scan_tier(
                    names@.subrange(i as int, n as int),
                    tier,
                    file_name@,
                    *content,
                ),
            decreases n - i,
        {
            let ghost rest = names@.subrange(i as int, n as int);
            assert(rest.drop_first() =~= names@.subrange(i + 1, n as int));
            assert(rest[0] == names@[i as int]);
            match self.matchers.get(names[i].as_str()) {
                Some(m) => {
                    if m.tier() == tier {
                        match self.commands.get(m.command.as_str()) {
                            Some(c) => {
                                match m.check(file_name, content) {
                                    RuleCheck::Hit => {
                                        return Some(Resolution::Found(c));
                                    },
                                    RuleCheck::NeedsContent => {
                                        return Some(Resolution::NeedsContent);
                                    },
                                    RuleCheck::Miss => {},
                                }
                            },
                            None => {},
                        }
                    }
                },
                None => {},
            }
            i += 1;
        }
        assert(names@.subrange(n as int, n as int).len() == 0);
        None
    }

    /// Chooses a command for a file with the given name and optional
    /// extension. Resolution is done over `content`: with
    /// [`FileContent::Unread`] it stops at the first matcher that needs the
    /// content.
    pub fn resolve_named<'a>(
        &'a self,
        file_name: &str,
        extension: Option<&str>,
        content: &FileContent,
    ) -> (r: Result<Resolution<'a>, FindCommandError>)
        ensures
            resolution_step(r) == self.resolve_spec(file_name@, text_opt(extension), *content),
    {
        let by_extension = match extension {
            Some(e) => self.mappings.get(e),
            None => None,
        };
        let names = match by_extension {
            Some(v) => v,
            None => match self.mappings.get("*") {
                Some(v) => v,
                None => {
                    return Err(FindCommandError::NoMappingFound);
                },
            },
        };
        let file_name = file_name.to_owned();
        if let Some(r) = self.scan(names, Tier::NameOnly, &file_name, content) {
            return Ok(r);
        }
        if let Some(r) = self.scan(names, Tier::NameAndContent, &file_name, content) {
            return Ok(r);
        }
        if let Some(r) = self.scan(names, Tier::ContentOnly, &file_name, content) {
            return Ok(r);
        }
        if let Some(r) = self.scan(names, Tier::Unconditional, &file_name, content) {
            return Ok(r);
        }
        Err(FindCommandError::NoMatchFound)
    }

    /// Chooses a command for the file at `file_path`, from its file name and
    /// extension; see [`FassocRules::resolve_named`].
    pub fn find_suitable_command<'a>(&'a self, file_path: &str, content: &FileContent) -> (r: Result<
        Resolution<'a>,
        FindCommandError,
    >)
        ensures
            match path_file_name(file_path@) {
                None => r matches Err(FindCommandError::CannotConvertPath),
                Some(f) => resolution_step(r) == self.resolve_spec(
                    f,
                    path_extension(file_path@),
                    *content,
                ),
            },
    {
        let file_name = match file_name_of(file_path) {
            Some(f) => f,
            None => {
                return Err(FindCommandError::CannotConvertPath);
            },
        };
        let extension = extension_of(file_path);
        let r = match &extension {
            Some(e) => self.resolve_named(file_name.as_str(), Some(e.as_str()), content),
            None => self.resolve_named(file_name.as_str(), None, content),
        };
        r
    }
}


proof fn lemma_scan_known_content(
    rules: FassocRules,
    names: Seq<String>,
    tier: Tier,
    file_name: Seq<char>,
    content: FileContent,
)
    requires
        !(content is Unread),
    ensures
        !(rules.scan_tier(names, tier, file_name, content) is NeedsContent),
    decreases names.len(),
{
    if names.len() > 0 {
        lemma_scan_known_content(rules, names.drop_first(), tier, file_name, content);
    }
}

proof fn lemma_scan_unread_is_final(
    rules: FassocRules,
    names: Seq<String>,
    tier: Tier,
    file_name: Seq<char>,
    content: FileContent,
)
    requires
        !(rules.scan_tier(names, tier, file_name, FileContent::Unread) is NeedsContent),
    ensures
        rules.scan_tier(names, tier, file_name, content) == rules.scan_tier(
            names,
            tier,
            file_name,
            FileContent::Unread,
        ),
    decreases names.len(),
{
    if names.len() > 0 {
        let rest = names.drop_first();
        match rules.candidate(names[0]@) {
            Some(mc) => {
                if tier_of(mc.0) == tier {
                    if rule_check(mc.0, file_name, FileContent::Unread) == RuleCheck::Miss {
                        lemma_scan_unread_is_final(rules, rest, tier, file_name, content);
                    }
                } else {
                    lemma_scan_unread_is_final(rules, rest, tier, file_name, content);
                }
            },
            None => {
                lemma_scan_unread_is_final(rules, rest, tier, file_name, content);
            },
        }
    }
}

/// Whether `name` refers to a name-only matcher, whose command exists and
/// whose file-name pattern matches.
pub open spec fn name_only_hit(rules: FassocRules, name: Seq<char>, file_name: Seq<char>) -> bool {
    match rules.candidate(name) {
        Some(mc) => tier_of(mc.0) == Tier::NameOnly && pattern_holds(mc.0.regexf, file_name),
        None => false,
    }
}

/// Whether `name` refers to a matcher with a content pattern whose command
/// exists.
pub open spec fn content_candidate(rules: FassocRules, name: Seq<char>) -> bool {
    match rules.candidate(name) {
        Some(mc) => mc.0.regexc is Some,
        None => false,
    }
}

proof fn lemma_scan_needs_content(
    rules: FassocRules,
    names: Seq<String>,
    tier: Tier,
    file_name: Seq<char>,
    content: FileContent,
) -> (i: int)
    requires
        rules.scan_tier(names, tier, file_name, content) is NeedsContent,
    ensures
        0 <= i < names.len(),
        content_candidate(rules, names[i]@),
        tier_of(rules.candidate(names[i]@)->Some_0.0) == tier,
    decreases names.len(),
{
    let rest = names.drop_first();
    match rules.candidate(names[0]@) {
        Some(mc) => {
            if tier_of(mc.0) == tier && rule_check(mc.0, file_name, content)
                == RuleCheck::NeedsContent {
                0
            } else {
                let j = lemma_scan_needs_content(rules, rest, tier, file_name, content);
                assert(rest[j] == names[j + 1]);
                j + 1
            }
        },
        None => {
            let j = lemma_scan_needs_content(rules, rest, tier, file_name, content);
            assert(rest[j] == names[j + 1]);
            j + 1
        },
    }
}

proof fn lemma_scan_finds(
    rules: FassocRules,
    names: Seq<String>,
    file_name: Seq<char>,
    content: FileContent,
    i: int,
) -> (j: int)
    requires
        0 <= i < names.len(),
        name_only_hit(rules, names[i]@, file_name),
    ensures
        0 <= j < names.len(),
        name_only_hit(rules, names[j]@, file_name),
        rules.scan_tier(names, Tier::NameOnly, file_name, content) == Step::Found(
            rules.candidate(names[j]@)->Some_0.1,
        ),
    decreases names.len(),
{
    let rest = names.drop_first();
    let head = rules.candidate(names[0]@);
    if name_only_hit(rules, names[0]@, file_name) {
        assert(rule_check(head->Some_0.0, file_name, content) == RuleCheck::Hit);
        0
    } else {
        assert(i > 0);
        assert(rest[i - 1] == names[i]);
        let j = lemma_scan_finds(rules, rest, file_name, content, i - 1);
        assert(rest[j] == names[j + 1]);
        if let Some(mc) = head {
            if tier_of(mc.0) == Tier::NameOnly {
                assert(rule_check(mc.0, file_name, content) == RuleCheck::Miss);
            }
        }
        j + 1
    }
}

/// Content is read at most once: resolving with the content known, or
/// known to be unavailable, never asks for it again.
pub proof fn lemma_content_read_at_most_once(
    rules: FassocRules,
    file_name: Seq<char>,
    extension: Option<Seq<char>>,
    content: FileContent,
)
    requires
        !(content is Unread),
    ensures
        rules.resolve_spec(file_name, extension, content) != Ok::<Step, FindCommandError>(
            Step::NeedsContent,
        ),
{
    if let Some(names) = rules.selected_mapping(extension) {
        lemma_scan_known_content(rules, names@, Tier::NameOnly, file_name, content);
        lemma_scan_known_content(rules, names@, Tier::NameAndContent, file_name, content);
        lemma_scan_known_content(rules, names@, Tier::ContentOnly, file_name, content);
        lemma_scan_known_content(rules, names@, Tier::Unconditional, file_name, content);
    }
}

/// Content is consulted only when needed: if resolving without the content
/// does not ask for it, the content cannot change the result.
pub proof fn lemma_unneeded_content_is_irrelevant(
    rules: FassocRules,
    file_name: Seq<char>,
    extension: Option<Seq<char>>,
    content: FileContent,
)
    requires
        rules.resolve_spec(file_name, extension, FileContent::Unread) != Ok::<
            Step,
            FindCommandError,
        >(Step::NeedsContent),
    ensures
        rules.resolve_spec(file_name, extension, content) == rules.resolve_spec(
            file_name,
            extension,
            FileContent::Unread,
        ),
{
    if let Some(names) = rules.selected_mapping(extension) {
        let u = FileContent::Unread;
        let a = rules.scan_tier(names@, Tier::NameOnly, file_name, u);
        let b = rules.scan_tier(names@, Tier::NameAndContent, file_name, u);
        let c = rules.scan_tier(names@, Tier::ContentOnly, file_name, u);
        let d = rules.scan_tier(names@, Tier::Unconditional, file_name, u);
        if !(a is NeedsContent) {
            lemma_scan_unread_is_final(rules, names@, Tier::NameOnly, file_name, content);
        }
        if !(b is NeedsContent) {
            lemma_scan_unread_is_final(rules, names@, Tier::NameAndContent, file_name, content);
        }
        if !(c is NeedsContent) {
            lemma_scan_unread_is_final(rules, names@, Tier::ContentOnly, file_name, content);
        }
        if !(d is NeedsContent) {
            lemma_scan_unread_is_final(rules, names@, Tier::Unconditional, file_name, content);
        }
    }
}

/// Resolution asks for the content only when the name-only tier found
/// nothing and the selected mapping holds a matcher with a content pattern
/// (a name-and-content or content-only one).
pub proof fn lemma_content_needed_only_for_content_tiers(
    rules: FassocRules,
    file_name: Seq<char>,
    extension: Option<Seq<char>>,
)
    requires
        rules.resolve_spec(file_name, extension, FileContent::Unread) == Ok::<
            Step,
            FindCommandError,
        >(Step::NeedsContent),
    ensures
        rules.selected_mapping(extension) is Some,
        rules.scan_tier(
            rules.selected_mapping(extension)->Some_0@,
            Tier::NameOnly,
            file_name,
            FileContent::Unread,
        ) is Miss,
        exists|i: int|
            0 <= i < rules.selected_mapping(extension)->Some_0@.len() && #[trigger] content_candidate(
                rules,
                rules.selected_mapping(extension)->Some_0@[i]@,
            ),
{
    let names = rules.selected_mapping(extension)->Some_0;
    let u = FileContent::Unread;
    let a = rules.scan_tier(names@, Tier::NameOnly, file_name, u);
    let b = rules.scan_tier(names@, Tier::NameAndContent, file_name, u);
    let d = rules.scan_tier(names@, Tier::Unconditional, file_name, u);
    if a is NeedsContent {
        lemma_scan_needs_content(rules, names@, Tier::NameOnly, file_name, u);
    } else if b is NeedsContent {
        lemma_scan_needs_content(rules, names@, Tier::NameAndContent, file_name, u);
    } else if a is Miss && b is Miss && rules.scan_tier(names@, Tier::ContentOnly, file_name, u) is NeedsContent {
        lemma_scan_needs_content(rules, names@, Tier::ContentOnly, file_name, u);
    } else if d is NeedsContent {
        lemma_scan_needs_content(rules, names@, Tier::Unconditional, file_name, u);
    }
}

/// A name-only matcher that matches always wins: when the selected mapping
/// holds one whose file-name pattern matches, the result is the command of
/// such a matcher, whatever the content and the other tiers hold, and the
/// content is not asked for.
pub proof fn lemma_name_only_tier_wins(
    rules: FassocRules,
    file_name: Seq<char>,
    extension: Option<Seq<char>>,
    content: FileContent,
    i: int,
)
    requires
        rules.selected_mapping(extension) is Some,
        0 <= i < rules.selected_mapping(extension)->Some_0@.len(),
        name_only_hit(rules, rules.selected_mapping(extension)->Some_0@[i]@, file_name),
    ensures
        exists|j: int|
            0 <= j < rules.selected_mapping(extension)->Some_0@.len() && #[trigger] name_only_hit(
                rules,
                rules.selected_mapping(extension)->Some_0@[j]@,
                file_name,
            ) && rules.resolve_spec(file_name, extension, content) == Ok::<Step, FindCommandError>(
                Step::Found(rules.candidate(rules.selected_mapping(extension)->Some_0@[j]@)->Some_0.1),
            ),
        rules.resolve_spec(file_name, extension, FileContent::Unread) == rules.resolve_spec(
            file_name,
            extension,
            content,
        ),
{
    let names = rules.selected_mapping(extension)->Some_0;
    let j = lemma_scan_finds(rules, names@, file_name, content, i);
    let k = lemma_scan_finds(rules, names@, file_name, FileContent::Unread, i);
    lemma_unneeded_content_is_irrelevant(rules, file_name, extension, content);
    assert(name_only_hit(rules, names@[j]@, file_name));
}

/// A mapping for the file's own extension takes precedence over the
/// wildcard mapping: the wildcard's matchers play no part.
pub proof fn lemma_extension_mapping_first(
    rules: FassocRules,
    file_name: Seq<char>,
    extension: Seq<char>,
    content: FileContent,
)
    requires
        rules.mappings.spec_get(extension) is Some,
    ensures
        rules.selected_mapping(Some(extension)) == rules.mappings.spec_get(extension),
        rules.resolve_spec(file_name, Some(extension), content) == match rules.scan_tiers(
            rules.mappings.spec_get(extension)->Some_0@,
            file_name,
            content,
        ) {
            Step::Miss => Err(FindCommandError::NoMatchFound),
            s => Ok(s),
        },
{
}


proof fn lemma_scan_same_tables(
    r1: FassocRules,
    r2: FassocRules,
    names: Seq<String>,
    tier: Tier,
    file_name: Seq<char>,
    content: FileContent,
)
    requires
        r1.matchers == r2.matchers,
        r1.commands == r2.commands,
    ensures
        r1.scan_tier(names, tier, file_name, content) == r2.scan_tier(
            names,
            tier,
            file_name,
            content,
        ),
    decreases names.len(),
{
    if names.len() > 0 {
        lemma_scan_same_tables(r1, r2, names.drop_first(), tier, file_name, content);
    }
}

proof fn lemma_scan_skips_dangling(
    rules: FassocRules,
    names: Seq<String>,
    i: int,
    tier: Tier,
    file_name: Seq<char>,
    content: FileContent,
)
    requires
        0 <= i < names.len(),
        rules.candidate(names[i]@) is None,
    ensures
        rules.scan_tier(names, tier, file_name, content) == rules.scan_tier(
            names.remove(i),
            tier,
            file_name,
            content,
        ),
    decreases names.len(),
{
    if i == 0 {
        assert(names.remove(0) =~= names.drop_first());
    } else {
        let rest = names.drop_first();
        assert(rest[i - 1] == names[i]);
        lemma_scan_skips_dangling(rules, rest, i - 1, tier, file_name, content);
        assert(names.remove(i).drop_first() =~= rest.remove(i - 1));
        assert(names.remove(i)[0] == names[0]);
    }
}

/// Resolution depends on the mappings only through the selected list: two
/// stores with the same matchers and commands that select the same list
/// for an extension resolve every file with that extension alike. In
/// particular, when the extension has a mapping, the wildcard mapping can
/// be anything, or absent, without changing the result.
pub proof fn lemma_wildcard_irrelevant_under_extension(
    r1: FassocRules,
    r2: FassocRules,
    file_name: Seq<char>,
    extension: Seq<char>,
    content: FileContent,
)
    requires
        r1.matchers == r2.matchers,
        r1.commands == r2.commands,
        r1.mappings.spec_get(extension) is Some,
        r2.mappings.spec_get(extension) == r1.mappings.spec_get(extension),
    ensures
        r1.resolve_spec(file_name, Some(extension), content) == r2.resolve_spec(
            file_name,
            Some(extension),
            content,
        ),
{
    let names = r1.mappings.spec_get(extension)->Some_0@;
    lemma_scan_same_tables(r1, r2, names, Tier::NameOnly, file_name, content);
    lemma_scan_same_tables(r1, r2, names, Tier::NameAndContent, file_name, content);
    lemma_scan_same_tables(r1, r2, names, Tier::ContentOnly, file_name, content);
    lemma_scan_same_tables(r1, r2, names, Tier::Unconditional, file_name, content);
}

/// A name in the selected mapping that refers to no matcher, or to a matcher
/// whose command does not exist, is skipped silently: removing it from the
/// list does not change the result.
pub proof fn lemma_dangling_name_skipped(
    r1: FassocRules,
    r2: FassocRules,
    file_name: Seq<char>,
    extension: Option<Seq<char>>,
    content: FileContent,
    i: int,
)
    requires
        r1.matchers == r2.matchers,
        r1.commands == r2.commands,
        r1.selected_mapping(extension) is Some,
        r2.selected_mapping(extension) is Some,
        0 <= i < r1.selected_mapping(extension)->Some_0@.len(),
        r1.candidate(r1.selected_mapping(extension)->Some_0@[i]@) is None,
        r2.selected_mapping(extension)->Some_0@ == r1.selected_mapping(extension)->Some_0@.remove(i),
    ensures
        r1.resolve_spec(file_name, extension, content) == r2.resolve_spec(
            file_name,
            extension,
            content,
        ),
{
    let names = r1.selected_mapping(extension)->Some_0@;
    let fewer = names.remove(i);
    lemma_scan_skips_dangling(r1, names, i, Tier::NameOnly, file_name, content);
    lemma_scan_skips_dangling(r1, names, i, Tier::NameAndContent, file_name, content);
    lemma_scan_skips_dangling(r1, names, i, Tier::ContentOnly, file_name, content);
    lemma_scan_skips_dangling(r1, names, i, Tier::Unconditional, file_name, content);
    lemma_scan_same_tables(r1, r2, fewer, Tier::NameOnly, file_name, content);
    lemma_scan_same_tables(r1, r2, fewer, Tier::NameAndContent, file_name, content);
    lemma_scan_same_tables(r1, r2, fewer, Tier::ContentOnly, file_name, content);
    lemma_scan_same_tables(r1, r2, fewer, Tier::Unconditional, file_name, content);
}

} // verus!
