//! Reading of the run's startup configuration: a tagged value type with
//! fallible accessors, a reader that records what was read and what was
//! missing, and the gathering of the full configuration, which fails — and
//! says everything that was missing — before any check unit runs.

use vstd::prelude::*;

use crate::text::str_eq;

verus! {

/// One configuration value: a string or a boolean. Reading it the wrong
/// way yields nothing rather than aborting.
pub enum InputValue {
    Str(String),
    Boolean(bool),
}

/// Mathematical model of an `InputValue`.
pub enum InputValueModel {
    Str(Seq<char>),
    Boolean(bool),
}

impl View for InputValue {
    type V = InputValueModel;

    open spec fn view(&self) -> InputValueModel {
        match self {
            InputValue::Str(s) => InputValueModel::Str(s@),
            InputValue::Boolean(b) => InputValueModel::Boolean(*b),
        }
    }
}

impl InputValue {
    /// The string inside, or nothing for a boolean.
    pub fn as_str(&self) -> (r: Option<&String>)
        ensures
            match self@ {
                InputValueModel::Str(s) => r matches Some(v) && v@ == s,
                InputValueModel::Boolean(_) => r is None,
            },
    {
        match self {
            InputValue::Str(s) => Some(s),
            InputValue::Boolean(_) => None,
        }
    }

    /// The boolean inside, or nothing for a string.
    pub fn as_bool(&self) -> (r: Option<bool>)
        ensures
            match self@ {
                InputValueModel::Boolean(b) => r == Some(b),
                InputValueModel::Str(_) => r is None,
            },
    {
        match self {
            InputValue::Boolean(b) => Some(*b),
            InputValue::Str(_) => None,
        }
    }
}

/// Why an environment variable could not be read.
#[derive(Clone, Copy, PartialEq, Eq, Structural, Debug)]
pub enum EnvReadError {
    NotPresent,
    NotUnicode,
}

/// Why a boolean input could not be read: beyond the environment failures,
/// the value may not parse as a boolean.
#[derive(Clone, Copy, PartialEq, Eq, Structural, Debug)]
pub enum BoolReadError {
    TypeError,
    NotPresent,
    NotUnicode,
}

/// The model of one recorded entry.
pub open spec fn entry_model() -> spec_fn((String, InputValue)) -> (Seq<char>, InputValueModel) {
    |p: (String, InputValue)| (p.0@, p.1@)
}

/// The value recorded under a key: the latest recording wins.
pub open spec fn lookup(entries: Seq<(Seq<char>, InputValueModel)>, key: Seq<char>) -> Option<
    InputValueModel,
>
    decreases entries.len(),
{
    if entries.len() == 0 {
        Option::None
    } else if entries.last().0 == key {
        Option::Some(entries.last().1)
    } else {
        lookup(entries.drop_last(), key)
    }
}

/// Records configuration values as they are read, and the reasons each
/// missing one could not be read.
pub struct InputReader {
    entries: Vec<(String, InputValue)>,
    pub failures: Vec<String>,
}

/// Mathematical model of an `InputReader`.
pub struct ReaderModel {
    pub entries: Seq<(Seq<char>, InputValueModel)>,
    pub failures: Seq<Seq<char>>,
}

impl View for InputReader {
    type V = ReaderModel;

    closed spec fn view(&self) -> ReaderModel {
        ReaderModel {
            entries: self.entries@.map_values(entry_model()),
            failures: self.failures@.map_values(|s: String| s@),
        }
    }
}

/// The failure messages that reading one environment variable contributes.
pub open spec fn str_env_failures(key: Seq<char>, value: Result<String, EnvReadError>) -> Seq<
    Seq<char>,
> {
    match value {
        Result::Ok(_) => Seq::empty(),
        Result::Err(EnvReadError::NotPresent) => seq![key + " was not provided."@],
        Result::Err(EnvReadError::NotUnicode) => seq![key + " was not properly encoded."@],
    }
}

/// The failure messages that reading one string input contributes.
pub open spec fn str_input_failures(key: Seq<char>, value: Result<String, EnvReadError>) -> Seq<
    Seq<char>,
> {
    match value {
        Result::Ok(_) => Seq::empty(),
        Result::Err(EnvReadError::NotPresent) => seq![key + " was not provided as an input."@],
        Result::Err(EnvReadError::NotUnicode) => seq![
            key + " was not properly encoded as an input."@,
        ],
    }
}

/// The failure messages that reading one boolean input contributes.
pub open spec fn bool_input_failures(key: Seq<char>, value: Result<bool, BoolReadError>) -> Seq<
    Seq<char>,
> {
    match value {
        Result::Ok(_) => Seq::empty(),
        Result::Err(BoolReadError::TypeError) => seq![
            key + " was provided as an input, but could not be converted to a boolean value."@,
        ],
        Result::Err(BoolReadError::NotPresent) => seq![key + " was not provided as an input."@],
        Result::Err(BoolReadError::NotUnicode) => seq![
            key + " was not properly encoded as an input."@,
        ],
    }
}

impl InputReader {
    /// Makes a reader with nothing recorded.
    pub fn new() -> (r: Self)
        ensures
            r@.entries.len() == 0,
            r@.failures.len() == 0,
    {
        let r = InputReader { entries: Vec::new(), failures: Vec::new() };
        proof {
            assert(r@.entries =~= Seq::<(Seq<char>, InputValueModel)>::empty());
            assert(r@.failures =~= Seq::<Seq<char>>::empty());
        }
        r
    }

    /// Records the result of reading the environment variable `key`: the
    /// value on success, the reason it was missing otherwise.
    pub fn record_str_env(&mut self, key: &str, value: Result<String, EnvReadError>)
        ensures
            final(self)@.entries == match value {
                Result::Ok(v) => old(self)@.entries.push((key@, InputValueModel::Str(v@))),
                Result::Err(_) => old(self)@.entries,
            },
            final(self)@.failures == old(self)@.failures + str_env_failures(key@, value),
    {
        match value {
            Result::Ok(v) => {
                let ghost before = self.entries@;
                self.entries.push((key.to_owned(), InputValue::Str(v)));
                proof {
                    assert(self@.entries =~= before.map_values(entry_model()).push(
                        (key@, InputValueModel::Str(value->Ok_0@)),
                    ));
                    assert(self@.failures + Seq::<Seq<char>>::empty() =~= self@.failures);
                }
            },
            Result::Err(EnvReadError::NotPresent) => {
                let ghost before = self.failures@;
                let mut m = key.to_owned();
                m.append(" was not provided.");
                self.failures.push(m);
                proof {
                    assert(self@.failures =~= before.map_values(|s: String| s@) + str_env_failures(
                        key@,
                        value,
                    ));
                }
            },
            Result::Err(EnvReadError::NotUnicode) => {
                let ghost before = self.failures@;
                let mut m = key.to_owned();
                m.append(" was not properly encoded.");
                self.failures.push(m);
                proof {
                    assert(self@.failures =~= before.map_values(|s: String| s@) + str_env_failures(
                        key@,
                        value,
                    ));
                }
            },
        }
    }

    /// Records the result of reading the input `key`, which is stored under
    /// the input prefix.
    pub fn record_str_input(&mut self, key: &str, value: Result<String, EnvReadError>)
        ensures
            final(self)@.entries == match value {
                Result::Ok(v) => old(self)@.entries.push(
                    ("INPUT_"@ + key@, InputValueModel::Str(v@)),
                ),
                Result::Err(_) => old(self)@.entries,
            },
            final(self)@.failures == old(self)@.failures + str_input_failures(key@, value),
    {
        match value {
            Result::Ok(v) => {
                let ghost before = self.entries@;
                let mut full = "INPUT_".to_owned();
                full.append(key);
                self.entries.push((full, InputValue::Str(v)));
                proof {
                    assert(self@.entries =~= before.map_values(entry_model()).push(
                        ("INPUT_"@ + key@, InputValueModel::Str(value->Ok_0@)),
                    ));
                    assert(self@.failures + Seq::<Seq<char>>::empty() =~= self@.failures);
                }
            },
            Result::Err(EnvReadError::NotPresent) => {
                let ghost before = self.failures@;
                let mut m = key.to_owned();
                m.append(" was not provided as an input.");
                self.failures.push(m);
                proof {
                    assert(self@.failures =~= before.map_values(|s: String| s@)
                        + str_input_failures(key@, value));
                }
            },
            Result::Err(EnvReadError::NotUnicode) => {
                let ghost before = self.failures@;
                let mut m = key.to_owned();
                m.append(" was not properly encoded as an input.");
                self.failures.push(m);
                proof {
                    assert(self@.failures =~= before.map_values(|s: String| s@)
                        + str_input_failures(key@, value));
                }
            },
        }
    }

    /// Records the result of reading the boolean input `key`, which is
    /// stored under the input prefix.
    pub fn record_bool_input(&mut self, key: &str, value: Result<bool, BoolReadError>)
        ensures
            final(self)@.entries == match value {
                Result::Ok(b) => old(self)@.entries.push(
                    ("INPUT_"@ + key@, InputValueModel::Boolean(b)),
                ),
                Result::Err(_) => old(self)@.entries,
            },
            final(self)@.failures == old(self)@.failures + bool_input_failures(key@, value),
    {
        match value {
            Result::Ok(b) => {
                let ghost before = self.entries@;
                let mut full = "INPUT_".to_owned();
                full.append(key);
                self.entries.push((full, InputValue::Boolean(b)));
                proof {
                    assert(self@.entries =~= before.map_values(entry_model()).push(
                        ("INPUT_"@ + key@, InputValueModel::Boolean(b)),
                    ));
                    assert(self@.failures + Seq::<Seq<char>>::empty() =~= self@.failures);
                }
            },
            Result::Err(BoolReadError::TypeError) => {
                let ghost before = self.failures@;
                let mut m = key.to_owned();
                m.append(" was provided as an input, but could not be converted to a boolean value.");
                self.failures.push(m);
                proof {
                    assert(self@.failures =~= before.map_values(|s: String| s@)
                        + bool_input_failures(key@, value));
                }
            },
            Result::Err(BoolReadError::NotPresent) => {
                let ghost before = self.failures@;
                let mut m = key.to_owned();
                m.append(" was not provided as an input.");
                self.failures.push(m);
                proof {
                    assert(self@.failures =~= before.map_values(|s: String| s@)
                        + bool_input_failures(key@, value));
                }
            },
            Result::Err(BoolReadError::NotUnicode) => {
                let ghost before = self.failures@;
                let mut m = key.to_owned();
                m.append(" was not properly encoded as an input.");
                self.failures.push(m);
                proof {
                    assert(self@.failures =~= before.map_values(|s: String| s@)
                        + bool_input_failures(key@, value));
                }
            },
        }
    }

    /// The string recorded under the environment key `key`, or nothing when
    /// none is recorded there.
    pub fn get_str_env(&self, key: &str) -> (r: Option<&String>)
        ensures
            match lookup(self@.entries, key@) {
                Option::Some(InputValueModel::Str(s)) => r matches Some(v) && v@ == s,
                _ => r is None,
            },
    {
        let n = self.entries.len();
        let ghost model = self@.entries;
        let mut j: usize = n;
        proof {
            assert(model.take(n as int) =~= model);
        }
        while j > 0
            invariant
                j <= n,
                n == self.entries@.len(),
                model == self@.entries,
                model.len() == n,
                lookup(model, key@) == lookup(model.take(j as int), key@),
            decreases j,
        {
            j = j - 1;
            if str_eq(self.entries[j].0.as_str(), key) {
                proof {
                    assert(model.take(j as int + 1).last() == model[j as int]);
                    assert(model[j as int].0 == key@);
                }
                match &self.entries[j].1 {
                    InputValue::Str(s) => {
                        return Some(s);
                    },
                    InputValue::Boolean(_) => {
                        return None;
                    },
                }
            }
            proof {
                assert(model.take(j as int + 1).last() == model[j as int]);
                assert(model[j as int].0 != key@);
                assert(model.take(j as int + 1).drop_last() =~= model.take(j as int));
            }
        }
        proof {
            assert(model.take(0) =~= Seq::<(Seq<char>, InputValueModel)>::empty());
        }
        None
    }

    /// The string recorded under the input key `key`, or nothing when none
    /// is recorded there.
    pub fn get_str_input(&self, key: &str) -> (r: Option<&String>)
        ensures
            match lookup(self@.entries, "INPUT_"@ + key@) {
                Option::Some(InputValueModel::Str(s)) => r matches Some(v) && v@ == s,
                _ => r is None,
            },
    {
        let mut full = "INPUT_".to_owned();
        full.append(key);
        self.get_str_env(full.as_str())
    }

    /// The boolean recorded under the input key `key`, or nothing when none
    /// is recorded there.
    pub fn get_bool_input(&self, key: &str) -> (r: Option<bool>)
        ensures
            match lookup(self@.entries, "INPUT_"@ + key@) {
                Option::Some(InputValueModel::Boolean(b)) => r == Some(b),
                _ => r is None,
            },
    {
        let mut full = "INPUT_".to_owned();
        full.append(key);
        let n = self.entries.len();
        let ghost model = self@.entries;
        let ghost gkey = "INPUT_"@ + key@;
        let mut j: usize = n;
        proof {
            assert(model.take(n as int) =~= model);
        }
        while j > 0
            invariant
                j <= n,
                n == self.entries@.len(),
                model == self@.entries,
                model.len() == n,
                full@ == gkey,
                gkey == "INPUT_"@ + key@,
                lookup(model, gkey) == lookup(model.take(j as int), gkey),
            decreases j,
        {
            j = j - 1;
            if str_eq(self.entries[j].0.as_str(), full.as_str()) {
                proof {
                    assert(model.take(j as int + 1).last() == model[j as int]);
                    assert(model[j as int].0 == gkey);
                }
                match &self.entries[j].1 {
                    InputValue::Boolean(b) => {
                        return Some(*b);
                    },
                    InputValue::Str(_) => {
                        return None;
                    },
                }
            }
            proof {
                assert(model.take(j as int + 1).last() == model[j as int]);
                assert(model[j as int].0 != gkey);
                assert(model.take(j as int + 1).drop_last() =~= model.take(j as int));
            }
        }
        proof {
            assert(model.take(0) =~= Seq::<(Seq<char>, InputValueModel)>::empty());
        }
        None
    }
}



/// A key that is not the last entry's key looks past that entry.
proof fn lemma_lookup_skip(entries: Seq<(Seq<char>, InputValueModel)>, key: Seq<char>)
    requires
        entries.len() > 0,
        entries.last().0 != key,
    ensures
        lookup(entries, key) == lookup(entries.drop_last(), key),
{
}

/// A key that is the last entry's key finds that entry.
proof fn lemma_lookup_hit(entries: Seq<(Seq<char>, InputValueModel)>, key: Seq<char>)
    requires
        entries.len() > 0,
        entries.last().0 == key,
    ensures
        lookup(entries, key) == Option::Some(entries.last().1),
{
}

/// The run's whole startup configuration, validated.
#[derive(Clone, Debug)]
pub struct Inputs {
    pub repository_owner: String,
    pub repository: String,
    pub token: String,
    pub sha: String,
    pub access_token: String,
    pub step_summary_path: String,
    pub check_dependabot: bool,
    pub check_yellr: bool,
    pub check_bundler_audit: bool,
    pub check_default_branch_protected: bool,
}

/// The raw read results the process hands in, one per required value.
pub struct RawInputs {
    pub repository_owner: Result<String, EnvReadError>,
    pub repository: Result<String, EnvReadError>,
    pub sha: Result<String, EnvReadError>,
    pub token: Result<String, EnvReadError>,
    pub access_token: Result<String, EnvReadError>,
    pub step_summary_path: Result<String, EnvReadError>,
    pub check_dependabot: Result<bool, BoolReadError>,
    pub check_yellr: Result<bool, BoolReadError>,
    pub check_bundler_audit: Result<bool, BoolReadError>,
    pub check_default_branch_protected: Result<bool, BoolReadError>,
}

/// Every failure message that gathering the configuration reports, in the
/// order the values are read.
pub open spec fn spec_gather_failures(raw: RawInputs) -> Seq<Seq<char>> {
    str_env_failures("GITHUB_REPOSITORY_OWNER"@, raw.repository_owner) + str_env_failures(
        "GITHUB_REPOSITORY"@,
        raw.repository,
    ) + str_env_failures("GITHUB_SHA"@, raw.sha) + str_env_failures("GITHUB_TOKEN"@, raw.token)
        + str_input_failures("ACCESS_TOKEN"@, raw.access_token) + str_env_failures(
        "GITHUB_STEP_SUMMARY"@,
        raw.step_summary_path,
    ) + bool_input_failures("CHECK_DEPENDABOT"@, raw.check_dependabot) + bool_input_failures(
        "CHECK_YELLR"@,
        raw.check_yellr,
    ) + bool_input_failures("CHECK_BUNDLER_AUDIT"@, raw.check_bundler_audit) + bool_input_failures(
        "CHECK_DEFAULT_BRANCH_PROTECTED"@,
        raw.check_default_branch_protected,
    )
}

/// Validates the raw configuration: when anything is missing the result
/// names every missing value, in reading order, and no configuration comes
/// out; otherwise the configuration holds exactly the values read.
#[verifier::rlimit(60)]
pub fn gather_inputs(raw: RawInputs) -> (r: Result<Inputs, Vec<String>>)
    ensures
        (r is Err) <==> spec_gather_failures(raw).len() > 0,
        r matches Err(msgs) ==> msgs@.map_values(|s: String| s@) == spec_gather_failures(raw),
        r matches Ok(inp) ==> (raw.repository_owner matches Ok(v) && inp.repository_owner@ == v@),
        r matches Ok(inp) ==> (raw.repository matches Ok(v) && inp.repository@ == v@),
        r matches Ok(inp) ==> (raw.sha matches Ok(v) && inp.sha@ == v@),
        r matches Ok(inp) ==> (raw.token matches Ok(v) && inp.token@ == v@),
        r matches Ok(inp) ==> (raw.access_token matches Ok(v) && inp.access_token@ == v@),
        r matches Ok(inp) ==> (raw.step_summary_path matches Ok(v) && inp.step_summary_path@
            == v@),
        r matches Ok(inp) ==> (raw.check_dependabot matches Ok(b) && inp.check_dependabot == b),
        r matches Ok(inp) ==> (raw.check_yellr matches Ok(b) && inp.check_yellr == b),
        r matches Ok(inp) ==> (raw.check_bundler_audit matches Ok(b) && inp.check_bundler_audit
            == b),
        r matches Ok(inp) ==> (raw.check_default_branch_protected matches Ok(b)
            && inp.check_default_branch_protected == b),
{
    let ghost graw = raw;
    let mut reader = InputReader::new();
    reader.record_str_env("GITHUB_REPOSITORY_OWNER", raw.repository_owner);
    reader.record_str_env("GITHUB_REPOSITORY", raw.repository);
    reader.record_str_env("GITHUB_SHA", raw.sha);
    reader.record_str_env("GITHUB_TOKEN", raw.token);
    reader.record_str_input("ACCESS_TOKEN", raw.access_token);
    reader.record_str_env("GITHUB_STEP_SUMMARY", raw.step_summary_path);
    reader.record_bool_input("CHECK_DEPENDABOT", raw.check_dependabot);
    reader.record_bool_input("CHECK_YELLR", raw.check_yellr);
    reader.record_bool_input("CHECK_BUNDLER_AUDIT", raw.check_bundler_audit);
    reader.record_bool_input("CHECK_DEFAULT_BRANCH_PROTECTED", raw.check_default_branch_protected);
    proof {
        assert(reader@.failures =~= spec_gather_failures(graw));
    }
    if reader.failures.len() > 0 {
        let ghost gfail = reader@.failures;
        let msgs = reader.failures;
        proof {
            assert(msgs@.map_values(|s: String| s@) =~= spec_gather_failures(graw));
        }
        return Err(msgs);
    }
    proof {
        assert(graw.repository_owner is Ok);
        assert(graw.repository is Ok);
        assert(graw.sha is Ok);
        assert(graw.token is Ok);
        assert(graw.access_token is Ok);
        assert(graw.step_summary_path is Ok);
        assert(graw.check_dependabot is Ok);
        assert(graw.check_yellr is Ok);
        assert(graw.check_bundler_audit is Ok);
        assert(graw.check_default_branch_protected is Ok);
        reveal_strlit("GITHUB_REPOSITORY_OWNER");
        reveal_strlit("GITHUB_REPOSITORY");
        reveal_strlit("GITHUB_SHA");
        reveal_strlit("GITHUB_TOKEN");
        reveal_strlit("ACCESS_TOKEN");
        reveal_strlit("GITHUB_STEP_SUMMARY");
        reveal_strlit("CHECK_DEPENDABOT");
        reveal_strlit("CHECK_YELLR");
        reveal_strlit("CHECK_BUNDLER_AUDIT");
        reveal_strlit("CHECK_DEFAULT_BRANCH_PROTECTED");
        reveal_strlit("INPUT_");
        assert("GITHUB_REPOSITORY_OWNER"@ != "GITHUB_REPOSITORY"@) by {
            assert(("GITHUB_REPOSITORY_OWNER"@).len() != ("GITHUB_REPOSITORY"@).len());
        }
        assert("GITHUB_REPOSITORY_OWNER"@ != "GITHUB_SHA"@) by {
            assert(("GITHUB_REPOSITORY_OWNER"@).len() != ("GITHUB_SHA"@).len());
        }
        assert("GITHUB_REPOSITORY_OWNER"@ != "GITHUB_TOKEN"@) by {
            assert(("GITHUB_REPOSITORY_OWNER"@).len() != ("GITHUB_TOKEN"@).len());
        }
        assert("GITHUB_REPOSITORY_OWNER"@ != "INPUT_"@ + "ACCESS_TOKEN"@) by {
            assert(("GITHUB_REPOSITORY_OWNER"@).len() != ("INPUT_"@ + "ACCESS_TOKEN"@).len());
        }
        assert("GITHUB_REPOSITORY_OWNER"@ != "GITHUB_STEP_SUMMARY"@) by {
            assert(("GITHUB_REPOSITORY_OWNER"@).len() != ("GITHUB_STEP_SUMMARY"@).len());
        }
        assert("GITHUB_REPOSITORY_OWNER"@ != "INPUT_"@ + "CHECK_DEPENDABOT"@) by {
            assert(("GITHUB_REPOSITORY_OWNER"@).len() != ("INPUT_"@ + "CHECK_DEPENDABOT"@).len());
        }
        assert("GITHUB_REPOSITORY_OWNER"@ != "INPUT_"@ + "CHECK_YELLR"@) by {
            assert(("GITHUB_REPOSITORY_OWNER"@).len() != ("INPUT_"@ + "CHECK_YELLR"@).len());
        }
        assert("GITHUB_REPOSITORY_OWNER"@ != "INPUT_"@ + "CHECK_BUNDLER_AUDIT"@) by {
            assert(("GITHUB_REPOSITORY_OWNER"@).len() != ("INPUT_"@ + "CHECK_BUNDLER_AUDIT"@).len());
        }
        assert("GITHUB_REPOSITORY_OWNER"@ != "INPUT_"@ + "CHECK_DEFAULT_BRANCH_PROTECTED"@) by {
            assert(("GITHUB_REPOSITORY_OWNER"@).len() != ("INPUT_"@ + "CHECK_DEFAULT_BRANCH_PROTECTED"@).len());
        }
        assert("GITHUB_REPOSITORY"@ != "GITHUB_SHA"@) by {
            assert(("GITHUB_REPOSITORY"@).len() != ("GITHUB_SHA"@).len());
        }
        assert("GITHUB_REPOSITORY"@ != "GITHUB_TOKEN"@) by {
            assert(("GITHUB_REPOSITORY"@).len() != ("GITHUB_TOKEN"@).len());
        }
        assert("GITHUB_REPOSITORY"@ != "INPUT_"@ + "ACCESS_TOKEN"@) by {
            assert(("GITHUB_REPOSITORY"@).len() != ("INPUT_"@ + "ACCESS_TOKEN"@).len());
        }
        assert("GITHUB_REPOSITORY"@ != "GITHUB_STEP_SUMMARY"@) by {
            assert(("GITHUB_REPOSITORY"@).len() != ("GITHUB_STEP_SUMMARY"@).len());
        }
        assert("GITHUB_REPOSITORY"@ != "INPUT_"@ + "CHECK_DEPENDABOT"@) by {
            assert(("GITHUB_REPOSITORY"@).len() != ("INPUT_"@ + "CHECK_DEPENDABOT"@).len());
        }
        assert("GITHUB_REPOSITORY"@ != "INPUT_"@ + "CHECK_YELLR"@) by {
            assert(("GITHUB_REPOSITORY"@)[0] != ("INPUT_"@ + "CHECK_YELLR"@)[0]);
        }
        assert("GITHUB_REPOSITORY"@ != "INPUT_"@ + "CHECK_BUNDLER_AUDIT"@) by {
            assert(("GITHUB_REPOSITORY"@).len() != ("INPUT_"@ + "CHECK_BUNDLER_AUDIT"@).len());
        }
        assert("GITHUB_REPOSITORY"@ != "INPUT_"@ + "CHECK_DEFAULT_BRANCH_PROTECTED"@) by {
            assert(("GITHUB_REPOSITORY"@).len() != ("INPUT_"@ + "CHECK_DEFAULT_BRANCH_PROTECTED"@).len());
        }
        assert("GITHUB_SHA"@ != "GITHUB_TOKEN"@) by {
            assert(("GITHUB_SHA"@).len() != ("GITHUB_TOKEN"@).len());
        }
        assert("GITHUB_SHA"@ != "INPUT_"@ + "ACCESS_TOKEN"@) by {
            assert(("GITHUB_SHA"@).len() != ("INPUT_"@ + "ACCESS_TOKEN"@).len());
        }
        assert("GITHUB_SHA"@ != "GITHUB_STEP_SUMMARY"@) by {
            assert(("GITHUB_SHA"@).len() != ("GITHUB_STEP_SUMMARY"@).len());
        }
        assert("GITHUB_SHA"@ != "INPUT_"@ + "CHECK_DEPENDABOT"@) by {
            assert(("GITHUB_SHA"@).len() != ("INPUT_"@ + "CHECK_DEPENDABOT"@).len());
        }
        assert("GITHUB_SHA"@ != "INPUT_"@ + "CHECK_YELLR"@) by {
            assert(("GITHUB_SHA"@).len() != ("INPUT_"@ + "CHECK_YELLR"@).len());
        }
        assert("GITHUB_SHA"@ != "INPUT_"@ + "CHECK_BUNDLER_AUDIT"@) by {
            assert(("GITHUB_SHA"@).len() != ("INPUT_"@ + "CHECK_BUNDLER_AUDIT"@).len());
        }
        assert("GITHUB_SHA"@ != "INPUT_"@ + "CHECK_DEFAULT_BRANCH_PROTECTED"@) by {
            assert(("GITHUB_SHA"@).len() != ("INPUT_"@ + "CHECK_DEFAULT_BRANCH_PROTECTED"@).len());
        }
        assert("GITHUB_TOKEN"@ != "INPUT_"@ + "ACCESS_TOKEN"@) by {
            assert(("GITHUB_TOKEN"@).len() != ("INPUT_"@ + "ACCESS_TOKEN"@).len());
        }
        assert("GITHUB_TOKEN"@ != "GITHUB_STEP_SUMMARY"@) by {
            assert(("GITHUB_TOKEN"@).len() != ("GITHUB_STEP_SUMMARY"@).len());
        }
        assert("GITHUB_TOKEN"@ != "INPUT_"@ + "CHECK_DEPENDABOT"@) by {
            assert(("GITHUB_TOKEN"@).len() != ("INPUT_"@ + "CHECK_DEPENDABOT"@).len());
        }
        assert("GITHUB_TOKEN"@ != "INPUT_"@ + "CHECK_YELLR"@) by {
            assert(("GITHUB_TOKEN"@).len() != ("INPUT_"@ + "CHECK_YELLR"@).len());
        }
        assert("GITHUB_TOKEN"@ != "INPUT_"@ + "CHECK_BUNDLER_AUDIT"@) by {
            assert(("GITHUB_TOKEN"@).len() != ("INPUT_"@ + "CHECK_BUNDLER_AUDIT"@).len());
        }
        assert("GITHUB_TOKEN"@ != "INPUT_"@ + "CHECK_DEFAULT_BRANCH_PROTECTED"@) by {
            assert(("GITHUB_TOKEN"@).len() != ("INPUT_"@ + "CHECK_DEFAULT_BRANCH_PROTECTED"@).len());
        }
        assert("INPUT_"@ + "ACCESS_TOKEN"@ != "GITHUB_STEP_SUMMARY"@) by {
            assert(("INPUT_"@ + "ACCESS_TOKEN"@).len() != ("GITHUB_STEP_SUMMARY"@).len());
        }
        assert("INPUT_"@ + "ACCESS_TOKEN"@ != "INPUT_"@ + "CHECK_DEPENDABOT"@) by {
            assert(("INPUT_"@ + "ACCESS_TOKEN"@).len() != ("INPUT_"@ + "CHECK_DEPENDABOT"@).len());
        }
        assert("INPUT_"@ + "ACCESS_TOKEN"@ != "INPUT_"@ + "CHECK_YELLR"@) by {
            assert(("INPUT_"@ + "ACCESS_TOKEN"@).len() != ("INPUT_"@ + "CHECK_YELLR"@).len());
        }
        assert("INPUT_"@ + "ACCESS_TOKEN"@ != "INPUT_"@ + "CHECK_BUNDLER_AUDIT"@) by {
            assert(("INPUT_"@ + "ACCESS_TOKEN"@).len() != ("INPUT_"@ + "CHECK_BUNDLER_AUDIT"@).len());
        }
        assert("INPUT_"@ + "ACCESS_TOKEN"@ != "INPUT_"@ + "CHECK_DEFAULT_BRANCH_PROTECTED"@) by {
            assert(("INPUT_"@ + "ACCESS_TOKEN"@).len() != ("INPUT_"@ + "CHECK_DEFAULT_BRANCH_PROTECTED"@).len());
        }
        assert("GITHUB_STEP_SUMMARY"@ != "INPUT_"@ + "CHECK_DEPENDABOT"@) by {
            assert(("GITHUB_STEP_SUMMARY"@).len() != ("INPUT_"@ + "CHECK_DEPENDABOT"@).len());
        }
        assert("GITHUB_STEP_SUMMARY"@ != "INPUT_"@ + "CHECK_YELLR"@) by {
            assert(("GITHUB_STEP_SUMMARY"@).len() != ("INPUT_"@ + "CHECK_YELLR"@).len());
        }
        assert("GITHUB_STEP_SUMMARY"@ != "INPUT_"@ + "CHECK_BUNDLER_AUDIT"@) by {
            assert(("GITHUB_STEP_SUMMARY"@).len() != ("INPUT_"@ + "CHECK_BUNDLER_AUDIT"@).len());
        }
        assert("GITHUB_STEP_SUMMARY"@ != "INPUT_"@ + "CHECK_DEFAULT_BRANCH_PROTECTED"@) by {
            assert(("GITHUB_STEP_SUMMARY"@).len() != ("INPUT_"@ + "CHECK_DEFAULT_BRANCH_PROTECTED"@).len());
        }
        assert("INPUT_"@ + "CHECK_DEPENDABOT"@ != "INPUT_"@ + "CHECK_YELLR"@) by {
            assert(("INPUT_"@ + "CHECK_DEPENDABOT"@).len() != ("INPUT_"@ + "CHECK_YELLR"@).len());
        }
        assert("INPUT_"@ + "CHECK_DEPENDABOT"@ != "INPUT_"@ + "CHECK_BUNDLER_AUDIT"@) by {
            assert(("INPUT_"@ + "CHECK_DEPENDABOT"@).len() != ("INPUT_"@ + "CHECK_BUNDLER_AUDIT"@).len());
        }
        assert("INPUT_"@ + "CHECK_DEPENDABOT"@ != "INPUT_"@ + "CHECK_DEFAULT_BRANCH_PROTECTED"@) by {
            assert(("INPUT_"@ + "CHECK_DEPENDABOT"@).len() != ("INPUT_"@ + "CHECK_DEFAULT_BRANCH_PROTECTED"@).len());
        }
        assert("INPUT_"@ + "CHECK_YELLR"@ != "INPUT_"@ + "CHECK_BUNDLER_AUDIT"@) by {
            assert(("INPUT_"@ + "CHECK_YELLR"@).len() != ("INPUT_"@ + "CHECK_BUNDLER_AUDIT"@).len());
        }
        assert("INPUT_"@ + "CHECK_YELLR"@ != "INPUT_"@ + "CHECK_DEFAULT_BRANCH_PROTECTED"@) by {
            assert(("INPUT_"@ + "CHECK_YELLR"@).len() != ("INPUT_"@ + "CHECK_DEFAULT_BRANCH_PROTECTED"@).len());
        }
        assert("INPUT_"@ + "CHECK_BUNDLER_AUDIT"@ != "INPUT_"@ + "CHECK_DEFAULT_BRANCH_PROTECTED"@) by {
            assert(("INPUT_"@ + "CHECK_BUNDLER_AUDIT"@).len() != ("INPUT_"@ + "CHECK_DEFAULT_BRANCH_PROTECTED"@).len());
        }
        let e10 = reader@.entries;
        let e9 = e10.drop_last();
        let e8 = e9.drop_last();
        let e7 = e8.drop_last();
        let e6 = e7.drop_last();
        let e5 = e6.drop_last();
        let e4 = e5.drop_last();
        let e3 = e4.drop_last();
        let e2 = e3.drop_last();
        let e1 = e2.drop_last();
        assert(e10.last().0 == "INPUT_"@ + "CHECK_DEFAULT_BRANCH_PROTECTED"@);
        assert(e9.last().0 == "INPUT_"@ + "CHECK_BUNDLER_AUDIT"@);
        assert(e8.last().0 == "INPUT_"@ + "CHECK_YELLR"@);
        assert(e7.last().0 == "INPUT_"@ + "CHECK_DEPENDABOT"@);
        assert(e6.last().0 == "GITHUB_STEP_SUMMARY"@);
        assert(e5.last().0 == "INPUT_"@ + "ACCESS_TOKEN"@);
        assert(e4.last().0 == "GITHUB_TOKEN"@);
        assert(e3.last().0 == "GITHUB_SHA"@);
        assert(e2.last().0 == "GITHUB_REPOSITORY"@);
        assert(e1.last().0 == "GITHUB_REPOSITORY_OWNER"@);
        lemma_lookup_skip(e10, "GITHUB_REPOSITORY_OWNER"@);
        lemma_lookup_skip(e9, "GITHUB_REPOSITORY_OWNER"@);
        lemma_lookup_skip(e8, "GITHUB_REPOSITORY_OWNER"@);
        lemma_lookup_skip(e7, "GITHUB_REPOSITORY_OWNER"@);
        lemma_lookup_skip(e6, "GITHUB_REPOSITORY_OWNER"@);
        lemma_lookup_skip(e5, "GITHUB_REPOSITORY_OWNER"@);
        lemma_lookup_skip(e4, "GITHUB_REPOSITORY_OWNER"@);
        lemma_lookup_skip(e3, "GITHUB_REPOSITORY_OWNER"@);
        lemma_lookup_skip(e2, "GITHUB_REPOSITORY_OWNER"@);
        lemma_lookup_hit(e1, "GITHUB_REPOSITORY_OWNER"@);
        assert(lookup(reader@.entries, "GITHUB_REPOSITORY_OWNER"@) == Option::Some(
            InputValueModel::Str(graw.repository_owner->Ok_0@),
        ));
        lemma_lookup_skip(e10, "GITHUB_REPOSITORY"@);
        lemma_lookup_skip(e9, "GITHUB_REPOSITORY"@);
        lemma_lookup_skip(e8, "GITHUB_REPOSITORY"@);
        lemma_lookup_skip(e7, "GITHUB_REPOSITORY"@);
        lemma_lookup_skip(e6, "GITHUB_REPOSITORY"@);
        lemma_lookup_skip(e5, "GITHUB_REPOSITORY"@);
        lemma_lookup_skip(e4, "GITHUB_REPOSITORY"@);
        lemma_lookup_skip(e3, "GITHUB_REPOSITORY"@);
        lemma_lookup_hit(e2, "GITHUB_REPOSITORY"@);
        assert(lookup(reader@.entries, "GITHUB_REPOSITORY"@) == Option::Some(
            InputValueModel::Str(graw.repository->Ok_0@),
        ));
        lemma_lookup_skip(e10, "GITHUB_SHA"@);
        lemma_lookup_skip(e9, "GITHUB_SHA"@);
        lemma_lookup_skip(e8, "GITHUB_SHA"@);
        lemma_lookup_skip(e7, "GITHUB_SHA"@);
        lemma_lookup_skip(e6, "GITHUB_SHA"@);
        lemma_lookup_skip(e5, "GITHUB_SHA"@);
        lemma_lookup_skip(e4, "GITHUB_SHA"@);
        lemma_lookup_hit(e3, "GITHUB_SHA"@);
        assert(lookup(reader@.entries, "GITHUB_SHA"@) == Option::Some(
            InputValueModel::Str(graw.sha->Ok_0@),
        ));
        lemma_lookup_skip(e10, "GITHUB_TOKEN"@);
        lemma_lookup_skip(e9, "GITHUB_TOKEN"@);
        lemma_lookup_skip(e8, "GITHUB_TOKEN"@);
        lemma_lookup_skip(e7, "GITHUB_TOKEN"@);
        lemma_lookup_skip(e6, "GITHUB_TOKEN"@);
        lemma_lookup_skip(e5, "GITHUB_TOKEN"@);
        lemma_lookup_hit(e4, "GITHUB_TOKEN"@);
        assert(lookup(reader@.entries, "GITHUB_TOKEN"@) == Option::Some(
            InputValueModel::Str(graw.token->Ok_0@),
        ));
        lemma_lookup_skip(e10, "INPUT_"@ + "ACCESS_TOKEN"@);
        lemma_lookup_skip(e9, "INPUT_"@ + "ACCESS_TOKEN"@);
        lemma_lookup_skip(e8, "INPUT_"@ + "ACCESS_TOKEN"@);
        lemma_lookup_skip(e7, "INPUT_"@ + "ACCESS_TOKEN"@);
        lemma_lookup_skip(e6, "INPUT_"@ + "ACCESS_TOKEN"@);
        lemma_lookup_hit(e5, "INPUT_"@ + "ACCESS_TOKEN"@);
        assert(lookup(reader@.entries, "INPUT_"@ + "ACCESS_TOKEN"@) == Option::Some(
            InputValueModel::Str(graw.access_token->Ok_0@),
        ));
        lemma_lookup_skip(e10, "GITHUB_STEP_SUMMARY"@);
        lemma_lookup_skip(e9, "GITHUB_STEP_SUMMARY"@);
        lemma_lookup_skip(e8, "GITHUB_STEP_SUMMARY"@);
        lemma_lookup_skip(e7, "GITHUB_STEP_SUMMARY"@);
        lemma_lookup_hit(e6, "GITHUB_STEP_SUMMARY"@);
        assert(lookup(reader@.entries, "GITHUB_STEP_SUMMARY"@) == Option::Some(
            InputValueModel::Str(graw.step_summary_path->Ok_0@),
        ));
        lemma_lookup_skip(e10, "INPUT_"@ + "CHECK_DEPENDABOT"@);
        lemma_lookup_skip(e9, "INPUT_"@ + "CHECK_DEPENDABOT"@);
        lemma_lookup_skip(e8, "INPUT_"@ + "CHECK_DEPENDABOT"@);
        lemma_lookup_hit(e7, "INPUT_"@ + "CHECK_DEPENDABOT"@);
        assert(lookup(reader@.entries, "INPUT_"@ + "CHECK_DEPENDABOT"@) == Option::Some(
            InputValueModel::Boolean(graw.check_dependabot->Ok_0),
        ));
        lemma_lookup_skip(e10, "INPUT_"@ + "CHECK_YELLR"@);
        lemma_lookup_skip(e9, "INPUT_"@ + "CHECK_YELLR"@);
        lemma_lookup_hit(e8, "INPUT_"@ + "CHECK_YELLR"@);
        assert(lookup(reader@.entries, "INPUT_"@ + "CHECK_YELLR"@) == Option::Some(
            InputValueModel::Boolean(graw.check_yellr->Ok_0),
        ));
        lemma_lookup_skip(e10, "INPUT_"@ + "CHECK_BUNDLER_AUDIT"@);
        lemma_lookup_hit(e9, "INPUT_"@ + "CHECK_BUNDLER_AUDIT"@);
        assert(lookup(reader@.entries, "INPUT_"@ + "CHECK_BUNDLER_AUDIT"@) == Option::Some(
            InputValueModel::Boolean(graw.check_bundler_audit->Ok_0),
        ));
        lemma_lookup_hit(e10, "INPUT_"@ + "CHECK_DEFAULT_BRANCH_PROTECTED"@);
        assert(lookup(reader@.entries, "INPUT_"@ + "CHECK_DEFAULT_BRANCH_PROTECTED"@) == Option::Some(
            InputValueModel::Boolean(graw.check_default_branch_protected->Ok_0),
        ));
    }
    let repository_owner = match reader.get_str_env("GITHUB_REPOSITORY_OWNER") {
        Some(s) => s.clone(),
        None => vstd::pervasive::unreached(),
    };
    let repository = match reader.get_str_env("GITHUB_REPOSITORY") {
        Some(s) => s.clone(),
        None => vstd::pervasive::unreached(),
    };
    let sha = match reader.get_str_env("GITHUB_SHA") {
        Some(s) => s.clone(),
        None => vstd::pervasive::unreached(),
    };
    let token = match reader.get_str_env("GITHUB_TOKEN") {
        Some(s) => s.clone(),
        None => vstd::pervasive::unreached(),
    };
    let access_token = match reader.get_str_input("ACCESS_TOKEN") {
        Some(s) => s.clone(),
        None => vstd::pervasive::unreached(),
    };
    let step_summary_path = match reader.get_str_env("GITHUB_STEP_SUMMARY") {
        Some(s) => s.clone(),
        None => vstd::pervasive::unreached(),
    };
    let check_dependabot = match reader.get_bool_input("CHECK_DEPENDABOT") {
        Some(b) => b,
        None => vstd::pervasive::unreached(),
    };
    let check_yellr = match reader.get_bool_input("CHECK_YELLR") {
        Some(b) => b,
        None => vstd::pervasive::unreached(),
    };
    let check_bundler_audit = match reader.get_bool_input("CHECK_BUNDLER_AUDIT") {
        Some(b) => b,
        None => vstd::pervasive::unreached(),
    };
    let check_default_branch_protected = match reader.get_bool_input(
        "CHECK_DEFAULT_BRANCH_PROTECTED",
    ) {
        Some(b) => b,
        None => vstd::pervasive::unreached(),
    };
    Ok(
        Inputs {
            repository_owner,
            repository,
            token,
            sha,
            access_token,
            step_summary_path,
            check_dependabot,
            check_yellr,
            check_bundler_audit,
            check_default_branch_protected,
        },
    )
}


} // verus!
