//! Filling in the plan of a launch: access to git, and then every configured variable and secret,
//! one after the other, as the host answers for them.

use crate::commands::launch::{
    add_git_access, add_secret, add_variable, git_mounts_model, hosts_meant, hosts_model,
    mounts_model, not_configured, LaunchPlan, SecretPlan,
};
use crate::config::{EnvValue, SandboxConfig, SecretConfig};
use crate::error::{Failure, SodagunError};
use crate::git_access::{env_models, AccessModel, GitAccessSpec};
use crate::text::texts;
use crate::values::{
    answers, env_question, env_value, env_value_question, question_of, secret_question,
    secret_source, secret_value, HostAnswer, HostQuestion,
};
use vstd::prelude::*;

verus! {

/// A secret: its name, its value, and the hosts that it may be sent to.
pub ghost struct SecretModel {
    pub name: Seq<char>,
    pub value: Seq<char>,
    pub hosts: Seq<(Seq<char>, bool)>,
}

/// The contents of secrets.
pub open spec fn secret_models(secrets: Seq<SecretPlan>) -> Seq<SecretModel> {
    Seq::new(
        secrets.len(),
        |i: int|
            SecretModel {
                name: secrets[i].name@,
                value: secrets[i].value@,
                hosts: hosts_model(secrets[i].hosts@),
            },
    )
}

/// The first variables of a table, as many as there are answers.
pub open spec fn variables_set(
    pairs: Seq<(Seq<char>, EnvValue)>,
    given: Seq<HostAnswer>,
) -> Seq<(Seq<char>, Seq<char>)> {
    Seq::new(
        given.len(),
        |i: int| (pairs[i].0, env_value(pairs[i].0, pairs[i].1, given[i])->Ok_0),
    )
}

/// The first secrets of a table, as many as there are answers.
pub open spec fn secrets_set(
    pairs: Seq<(Seq<char>, SecretConfig)>,
    given: Seq<HostAnswer>,
) -> Seq<SecretModel> {
    Seq::new(
        given.len(),
        |i: int|
            SecretModel {
                name: pairs[i].0,
                value: secret_value(pairs[i].0, pairs[i].1, given[i])->Ok_0,
                hosts: hosts_meant(texts(pairs[i].1.allowed_hosts@)),
            },
    )
}

/// A launch that is being filled in. The host is asked for one value at a time, the variables
/// before the secrets, both in the order of the configuration.
pub struct LaunchRun<'a> {
    config: &'a SandboxConfig,
    launch: LaunchPlan,
    variables: usize,
    secrets: usize,
    begun: Ghost<LaunchPlan>,
    git: Ghost<AccessModel>,
    given: Ghost<Seq<HostAnswer>>,
    given_secrets: Ghost<Seq<HostAnswer>>,
}

impl<'a> LaunchRun<'a> {
    /// The configuration.
    pub closed spec fn config(self) -> SandboxConfig {
        *self.config
    }

    /// The plan as it was at first.
    pub closed spec fn begun(self) -> LaunchPlan {
        self.begun@
    }

    /// The access to git.
    pub closed spec fn git(self) -> AccessModel {
        self.git@
    }

    /// What the host answered for the variables.
    pub closed spec fn given(self) -> Seq<HostAnswer> {
        self.given@
    }

    /// What the host answered for the secrets.
    pub closed spec fn given_secrets(self) -> Seq<HostAnswer> {
        self.given_secrets@
    }

    /// Whether every variable and every secret is there.
    pub open spec fn done(self) -> bool {
        &&& self.given().len() >= self.config().env.pairs().len()
        &&& self.given_secrets().len() >= self.config().secrets.pairs().len()
    }

    /// Whether a variable comes next.
    pub open spec fn at_variable(self) -> bool {
        self.given().len() < self.config().env.pairs().len()
    }

    /// The variable that comes next.
    pub open spec fn next_variable(self) -> (Seq<char>, EnvValue) {
        self.config().env.pairs()[self.given().len() as int]
    }

    /// The secret that comes next.
    pub open spec fn next_secret(self) -> (Seq<char>, SecretConfig) {
        self.config().secrets.pairs()[self.given_secrets().len() as int]
    }

    /// The name of what comes next.
    pub open spec fn next_name(self) -> Seq<char> {
        if self.at_variable() {
            self.next_variable().0
        } else {
            self.next_secret().0
        }
    }

    /// What the host is asked for next.
    pub open spec fn next_question(self) -> Option<HostQuestion> {
        if self.at_variable() {
            env_question(self.next_variable().1)
        } else {
            question_of(secret_source(self.next_secret().1))
        }
    }

    /// The value of what comes next, given the host's answer.
    pub open spec fn next_value(self, answer: HostAnswer) -> Result<Seq<char>, Failure> {
        if self.at_variable() {
            env_value(self.next_variable().0, self.next_variable().1, answer)
        } else {
            secret_value(self.next_secret().0, self.next_secret().1, answer)
        }
    }

    /// The variables and secrets that the host has answered for are in the plan, after those of
    /// git; nothing else was changed.
    #[verifier::type_invariant]
    spec fn holds(self) -> bool {
        let env = self.config.env.pairs();
        let secrets = self.config.secrets.pairs();
        &&& self.variables == self.given@.len() <= env.len()
        &&& self.secrets == self.given_secrets@.len() <= secrets.len()
        &&& mounts_model(self.launch.mounts@) == mounts_model(self.begun@.mounts@)
            + git_mounts_model(self.git@.mounts)
        &&& env_models(self.launch.env@) == env_models(self.begun@.env@) + not_configured(
            self.git@.env,
            self.config.env@.dom(),
            self.config.secrets@.dom(),
        ) + variables_set(env, self.given@)
        &&& secret_models(self.launch.secrets@) == secret_models(self.begun@.secrets@)
            + secrets_set(secrets, self.given_secrets@)
        &&& forall|i: int|
            0 <= i < self.given@.len() ==> {
                &&& answers(env_question((#[trigger] env[i]).1), self.given@[i])
                &&& env_value(env[i].0, env[i].1, self.given@[i]) is Ok
            }
        &&& forall|i: int|
            0 <= i < self.given_secrets@.len() ==> {
                &&& answers(
                    question_of(secret_source((#[trigger] secrets[i]).1)),
                    self.given_secrets@[i],
                )
                &&& secret_value(secrets[i].0, secrets[i].1, self.given_secrets@[i]) is Ok
            }
        &&& self.launch == (LaunchPlan {
            mounts: self.launch.mounts,
            env: self.launch.env,
            secrets: self.launch.secrets,
            ..self.begun@
        })
    }

    /// A launch with access to git, for which nothing has been asked yet.
    pub fn new(launch: LaunchPlan, git: GitAccessSpec, config: &'a SandboxConfig) -> (r: Self)
        ensures
            r.config() == *config,
            r.begun() == launch,
            r.git() == git@,
            r.given() == Seq::<HostAnswer>::empty(),
            r.given_secrets() == Seq::<HostAnswer>::empty(),
    {
        let ghost begun = launch;
        let ghost access = git@;
        let launch = add_git_access(launch, git, config);
        let ghost none = Seq::<HostAnswer>::empty();
        proof {
            assert(env_models(launch.env@) + variables_set(config.env.pairs(), none)
                =~= env_models(launch.env@));
            assert(secret_models(launch.secrets@) + secrets_set(config.secrets.pairs(), none)
                =~= secret_models(launch.secrets@));
        }
        LaunchRun {
            config,
            launch,
            variables: 0,
            secrets: 0,
            begun: Ghost(begun),
            git: Ghost(access),
            given: Ghost(none),
            given_secrets: Ghost(none),
        }
    }

    /// The name of the variable or secret that comes next and what the host is asked for it;
    /// nothing where all are there.
    pub fn question(&self) -> (r: Option<(String, Option<HostQuestion>)>)
        ensures
            match r {
                Some((name, question)) => {
                    &&& !self.done()
                    &&& name@ == self.next_name()
                    &&& question == self.next_question()
                },
                None => self.done(),
            },
    {
        proof {
            use_type_invariant(self);
        }
        let env = &self.config.env;
        let secrets = &self.config.secrets;
        if self.variables < env.len() {
            let question = env_value_question(env.value_at(self.variables));
            Some((env.key_at(self.variables).to_owned(), question))
        } else if self.secrets < secrets.len() {
            let question = secret_question(secrets.value_at(self.secrets));
            Some((secrets.key_at(self.secrets).to_owned(), question))
        } else {
            None
        }
    }

    /// Adds the variable or secret that comes next. One that has no value ends the launch.
    pub fn answer(self, answer: HostAnswer) -> (r: Result<LaunchRun<'a>, SodagunError>)
        requires
            !self.done(),
            answers(self.next_question(), answer),
        ensures
            match r {
                Ok(next) => {
                    &&& self.next_value(answer) is Ok
                    &&& next.config() == self.config()
                    &&& next.begun() == self.begun()
                    &&& next.git() == self.git()
                    &&& next.given() == if self.at_variable() {
                        self.given().push(answer)
                    } else {
                        self.given()
                    }
                    &&& next.given_secrets() == if self.at_variable() {
                        self.given_secrets()
                    } else {
                        self.given_secrets().push(answer)
                    }
                },
                Err(e) => self.next_value(answer) == Err::<Seq<char>, Failure>(e@),
            },
    {
        proof {
            use_type_invariant(&self);
        }
        let config = self.config;
        let ghost before = self;
        let env = &config.env;
        let secrets = &config.secrets;
        if self.variables < env.len() {
            let name = env.key_at(self.variables);
            match add_variable(self.launch, name, env.value_at(self.variables), answer) {
                Ok(launch) => {
                    let ghost given = before.given@.push(answer);
                    proof {
                        let old_set = variables_set(env.pairs(), before.given@);
                        let added = variables_set(env.pairs(), given).last();
                        assert(variables_set(env.pairs(), given) =~= old_set.push(added));
                        assert(env_models(launch.env@) =~= env_models(before.begun@.env@)
                            + not_configured(
                            before.git@.env,
                            config.env@.dom(),
                            config.secrets@.dom(),
                        ) + variables_set(env.pairs(), given));
                    }
                    Ok(
                        LaunchRun {
                            config,
                            launch,
                            variables: self.variables + 1,
                            secrets: self.secrets,
                            begun: self.begun,
                            git: self.git,
                            given: Ghost(given),
                            given_secrets: self.given_secrets,
                        },
                    )
                },
                Err(e) => Err(e),
            }
        } else {
            let name = secrets.key_at(self.secrets);
            match add_secret(self.launch, name, secrets.value_at(self.secrets), answer) {
                Ok(launch) => {
                    let ghost given = before.given_secrets@.push(answer);
                    proof {
                        let old_set = secrets_set(secrets.pairs(), before.given_secrets@);
                        let added = secrets_set(secrets.pairs(), given).last();
                        assert(secrets_set(secrets.pairs(), given) =~= old_set.push(added));
                        let had = secret_models(before.launch.secrets@);
                        let all = launch.secrets@;
                        assert forall|i: int| 0 <= i < had.len() implies #[trigger] secret_models(
                            all,
                        )[i] == had[i] by {
                            assert(all.drop_last()[i] == all[i]);
                        }
                        assert(secret_models(all) =~= had.push(added));
                        assert(secret_models(all) =~= secret_models(before.begun@.secrets@)
                            + secrets_set(secrets.pairs(), given));
                    }
                    Ok(
                        LaunchRun {
                            config,
                            launch,
                            variables: self.variables,
                            secrets: self.secrets + 1,
                            begun: self.begun,
                            git: self.git,
                            given: self.given,
                            given_secrets: Ghost(given),
                        },
                    )
                },
                Err(e) => Err(e),
            }
        }
    }

    /// The plan with all that it needs: the mounts of git after the others, the variables of git
    /// that are not configured and then each configured variable, and each configured secret.
    pub fn finish(self) -> (r: LaunchPlan)
        requires
            self.done(),
        ensures
            self.given().len() == self.config().env.pairs().len(),
            self.given_secrets().len() == self.config().secrets.pairs().len(),
            forall|i: int|
                0 <= i < self.given().len() ==> {
                    let pair = #[trigger] self.config().env.pairs()[i];
                    &&& answers(env_question(pair.1), self.given()[i])
                    &&& env_value(pair.0, pair.1, self.given()[i]) is Ok
                },
            forall|i: int|
                0 <= i < self.given_secrets().len() ==> {
                    let pair = #[trigger] self.config().secrets.pairs()[i];
                    &&& answers(
                        question_of(secret_source(pair.1)),
                        self.given_secrets()[i],
                    )
                    &&& secret_value(pair.0, pair.1, self.given_secrets()[i]) is Ok
                },
            mounts_model(r.mounts@) == mounts_model(self.begun().mounts@) + git_mounts_model(
                self.git().mounts,
            ),
            env_models(r.env@) == env_models(self.begun().env@) + not_configured(
                self.git().env,
                self.config().env@.dom(),
                self.config().secrets@.dom(),
            ) + variables_set(self.config().env.pairs(), self.given()),
            secret_models(r.secrets@) == secret_models(self.begun().secrets@) + secrets_set(
                self.config().secrets.pairs(),
                self.given_secrets(),
            ),
            r == (LaunchPlan { mounts: r.mounts, env: r.env, secrets: r.secrets, ..self.begun() }),
    {
        proof {
            use_type_invariant(&self);
        }
        self.launch
    }
}

} // verus!
