use vstd::prelude::*;
use crate::fill::{build_outcome, missing_message, fresh_slots};

verus! {

/// A command line to run.
pub struct Command {
    pub executable: String,
    pub args: Vec<String>,
    pub env: Vec<String>,
    pub current_dir: Option<String>,
}

/// The builder of `Command`: each field absent until its setter is called.
pub struct CommandBuilder {
    pub executable: Option<String>,
    pub args: Option<Vec<String>>,
    pub env: Option<Vec<String>>,
    pub current_dir: Option<Option<String>>,
}

/// The error of `build` when a field was never set.
pub struct MissingFieldError {
    pub field: String,
}

/// The value of one field of a `Command`, as text.
pub enum FieldValue {
    Text(Seq<char>),
    List(Seq<Seq<char>>),
    MaybeText(Option<Seq<char>>),
}

pub open spec fn text_list(v: Vec<String>) -> Seq<Seq<char>> {
    v@.map_values(|s: String| s@)
}

pub open spec fn maybe_text(o: Option<String>) -> Option<Seq<char>> {
    match o {
        Some(s) => Some(s@),
        None => None,
    }
}

/// The names of the fields of `Command`, in declaration order.
pub open spec fn command_field_names() -> Seq<Seq<char>> {
    seq!["executable"@, "args"@, "env"@, "current_dir"@]
}

impl Command {
    /// The values of the fields, in declaration order.
    pub open spec fn values(&self) -> Seq<FieldValue> {
        seq![
            FieldValue::Text(self.executable@),
            FieldValue::List(text_list(self.args)),
            FieldValue::List(text_list(self.env)),
            FieldValue::MaybeText(maybe_text(self.current_dir)),
        ]
    }

    /// A builder with every field absent.
    pub fn builder() -> (r: CommandBuilder)
        ensures
            r.executable is None,
            r.args is None,
            r.env is None,
            r.current_dir is None,
            r.slots() == fresh_slots::<FieldValue>(4),
    {
        let r = CommandBuilder { executable: None, args: None, env: None, current_dir: None };
        assert(r.slots() =~= fresh_slots::<FieldValue>(4));
        r
    }
}

impl MissingFieldError {
    /// `<field> field missing`.
    pub fn message(&self) -> (r: String)
        ensures
            r@ == missing_message(self.field@),
    {
        let mut r = self.field.clone();
        r.append(" field missing");
        r
    }
}

/// What `build` leaves behind and returns, from the builder it was called on:
/// the builder unchanged, and the outcome of the build model on its slots.
pub open spec fn build_ensures(before: CommandBuilder, after: CommandBuilder, r: Result<Command, MissingFieldError>) -> bool {
    &&& after == before
    &&& result_view(r) == build_outcome(command_field_names(), before.slots())
}

/// A build result as the model states it: the field values, or the name of
/// the missing field.
pub open spec fn result_view(r: Result<Command, MissingFieldError>) -> Result<Seq<FieldValue>, Seq<char>> {
    match r {
        Ok(c) => Ok(c.values()),
        Err(e) => Err(e.field@),
    }
}

impl CommandBuilder {
    /// The stored values, in the declaration order of `Command`.
    pub open spec fn slots(&self) -> Seq<Option<FieldValue>> {
        seq![
            match self.executable { Some(s) => Some(FieldValue::Text(s@)), None => None },
            match self.args { Some(v) => Some(FieldValue::List(text_list(v))), None => None },
            match self.env { Some(v) => Some(FieldValue::List(text_list(v))), None => None },
            match self.current_dir { Some(o) => Some(FieldValue::MaybeText(maybe_text(o))), None => None },
        ]
    }

    /// Stores `executable` and hands the builder back for chaining.
    pub fn executable(&mut self, executable: String) -> (r: &mut Self)
        ensures
            r.executable == Some(executable),
            r.args == old(self).args,
            r.env == old(self).env,
            r.current_dir == old(self).current_dir,
            r.slots() == old(self).slots().update(0, Some(FieldValue::Text(executable@))),
            *final(self) == *final(r),
    {
        self.executable = Some(executable);
        proof {
            assert(self.slots() =~= old(self).slots().update(0, Some(FieldValue::Text(executable@))));
        }
        self
    }
    /// Stores `args` and hands the builder back for chaining.
    pub fn args(&mut self, args: Vec<String>) -> (r: &mut Self)
        ensures
            r.executable == old(self).executable,
            r.args == Some(args),
            r.env == old(self).env,
            r.current_dir == old(self).current_dir,
            r.slots() == old(self).slots().update(1, Some(FieldValue::List(text_list(args)))),
            *final(self) == *final(r),
    {
        self.args = Some(args);
        proof {
            assert(self.slots() =~= old(self).slots().update(1, Some(FieldValue::List(text_list(args)))));
        }
        self
    }

    /// Stores `env` and hands the builder back for chaining.
    pub fn env(&mut self, env: Vec<String>) -> (r: &mut Self)
        ensures
            r.executable == old(self).executable,
            r.args == old(self).args,
            r.env == Some(env),
            r.current_dir == old(self).current_dir,
            r.slots() == old(self).slots().update(2, Some(FieldValue::List(text_list(env)))),
            *final(self) == *final(r),
    {
        self.env = Some(env);
        proof {
            assert(self.slots() =~= old(self).slots().update(2, Some(FieldValue::List(text_list(env)))));
        }
        self
    }

    /// Stores `current_dir` and hands the builder back for chaining.
    pub fn current_dir(&mut self, current_dir: Option<String>) -> (r: &mut Self)
        ensures
            r.executable == old(self).executable,
            r.args == old(self).args,
            r.env == old(self).env,
            r.current_dir == Some(current_dir),
            r.slots() == old(self).slots().update(3, Some(FieldValue::MaybeText(maybe_text(current_dir)))),
            *final(self) == *final(r),
    {
        self.current_dir = Some(current_dir);
        proof {
            assert(self.slots() =~= old(self).slots().update(3, Some(FieldValue::MaybeText(maybe_text(current_dir)))));
        }
        self
    }

    /// Checks the fields in declaration order and fails on the first absent
    /// one; otherwise returns a `Command` holding copies of the stored values.
    /// The builder itself is left as it was.
    pub fn build(&mut self) -> (r: Result<Command, MissingFieldError>)
        ensures
            build_ensures(*old(self), *final(self), r),
    {
        proof {
            reveal_with_fuel(build_outcome, 5);
        }
        let executable = match &self.executable {
            Some(v) => v.clone(),
            None => return Err(MissingFieldError { field: String::from_str("executable") }),
        };
        let args = match &self.args {
            Some(v) => clone_texts(v),
            None => return Err(MissingFieldError { field: String::from_str("args") }),
        };
        let env = match &self.env {
            Some(v) => clone_texts(v),
            None => return Err(MissingFieldError { field: String::from_str("env") }),
        };
        let current_dir = match &self.current_dir {
            Some(v) => v.clone(),
            None => return Err(MissingFieldError { field: String::from_str("current_dir") }),
        };
        let c = Command { executable, args, env, current_dir };
        proof {
            let slots = self.slots();
            assert(slots.drop_first().drop_first().drop_first().drop_first() =~= Seq::<Option<FieldValue>>::empty());
            assert(c.values() =~= seq![slots[0]->Some_0] + (seq![slots[1]->Some_0] + (seq![slots[2]->Some_0] + (seq![slots[3]->Some_0] + Seq::<FieldValue>::empty()))));
        }
        Ok(c)
    }
}

/// A copy of a list of strings.
fn clone_texts(v: &Vec<String>) -> (r: Vec<String>)
    ensures
        r@ == v@,
{
    let r = v.clone();
    proof {
        assert(r@ =~= v@);
    }
    r
}

/// Calling `build` twice in a row, with no setter between, gives the same
/// result both times, and the builder stays as it was.
pub proof fn lemma_build_twice(
    b0: CommandBuilder,
    b1: CommandBuilder,
    r1: Result<Command, MissingFieldError>,
    b2: CommandBuilder,
    r2: Result<Command, MissingFieldError>,
)
    requires
        build_ensures(b0, b1, r1),
        build_ensures(b1, b2, r2),
    ensures
        result_view(r1) == result_view(r2),
        b2 == b0,
{
}

} // verus!
