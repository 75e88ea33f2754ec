//! Scoreboard values and the command lines that manipulate them.
//!
//! A [`ScoreValue`] names a scoreboard slot: a holder name and an objective.
//! Each operation renders the one `scoreboard players ...` command line that
//! performs it; hand the line to
//! [`Function::run_line`](crate::command::Function::run_line).

use vstd::prelude::*;

use crate::text::int_chars;

verus! {

/// A scoreboard value, named by holder and objective.
/// Create one with [`Function::score`](crate::command::Function::score).
#[derive(Clone, Debug)]
pub struct ScoreValue {
    /// The score holder's name.
    pub name: String,
    /// The objective the score is tracked under.
    pub objective: String,
}

/// The line `scoreboard players <verb> <name> <objective> <value>`.
pub open spec fn players_value_chars(verb: Seq<char>, name: Seq<char>, objective: Seq<char>, value: int) -> Seq<char> {
    "scoreboard players "@ + verb + seq![' '] + name + seq![' '] + objective + seq![' ']
        + int_chars(value)
}

/// The line `scoreboard players operation <l> <lobj> <op> <r> <robj>`.
pub open spec fn players_operation_chars(name: Seq<char>, objective: Seq<char>, op: Seq<char>, rhs_name: Seq<char>, rhs_objective: Seq<char>) -> Seq<char> {
    "scoreboard players operation "@ + name + seq![' '] + objective + seq![' '] + op + seq![' ']
        + rhs_name + seq![' '] + rhs_objective
}

impl ScoreValue {
    /// Names a scoreboard value.
    pub fn new(name: &str, objective: &str) -> (r: ScoreValue)
        ensures
            r.name@ == name@,
            r.objective@ == objective@,
    {
        ScoreValue { name: name.to_owned(), objective: objective.to_owned() }
    }

    fn value_line(&self, verb: &str, value: i64) -> (r: String)
        ensures
            r@ == players_value_chars(verb@, self.name@, self.objective@, value as int),
    {
        let mut out = String::from_str("scoreboard players ");
        out.append(verb);
        out.append(" ");
        out.append(self.name.as_str());
        out.append(" ");
        out.append(self.objective.as_str());
        out.append(" ");
        crate::text::push_i64(&mut out, value);
        proof {
            reveal_strlit(" ");
            assert(" "@ =~= seq![' ']);
            assert(out@ =~= players_value_chars(verb@, self.name@, self.objective@, value as int));
        }
        out
    }

    fn operation_line(&self, op: &str, rhs: &ScoreValue) -> (r: String)
        ensures
            r@ == players_operation_chars(self.name@, self.objective@, op@, rhs.name@, rhs.objective@),
    {
        let mut out = String::from_str("scoreboard players operation ");
        out.append(self.name.as_str());
        out.append(" ");
        out.append(self.objective.as_str());
        out.append(" ");
        out.append(op);
        out.append(" ");
        out.append(rhs.name.as_str());
        out.append(" ");
        out.append(rhs.objective.as_str());
        proof {
            reveal_strlit(" ");
            assert(" "@ =~= seq![' ']);
            assert(out@ =~= players_operation_chars(
                self.name@,
                self.objective@,
                op@,
                rhs.name@,
                rhs.objective@,
            ));
        }
        out
    }

    /// The line that sets the scoreboard value to a constant.
    pub fn set_to(&self, to: i64) -> (r: String)
        ensures
            r@ == players_value_chars("set"@, self.name@, self.objective@, to as int),
    {
        self.value_line("set", to)
    }

    /// The line that sets the scoreboard value to another score.
    pub fn set(&self, to: &ScoreValue) -> (r: String)
        ensures
            r@ == players_operation_chars(self.name@, self.objective@, "="@, to.name@, to.objective@),
    {
        self.operation_line("=", to)
    }

    /// The line that adds a constant to the scoreboard value.
    pub fn add_const(&self, rhs: i64) -> (r: String)
        ensures
            r@ == players_value_chars("add"@, self.name@, self.objective@, rhs as int),
    {
        self.value_line("add", rhs)
    }

    /// The line that subtracts a constant from the scoreboard value.
    pub fn sub_const(&self, rhs: i64) -> (r: String)
        ensures
            r@ == players_value_chars("remove"@, self.name@, self.objective@, rhs as int),
    {
        self.value_line("remove", rhs)
    }

    /// The line that adds another score to the scoreboard value.
    pub fn add_score(&self, rhs: &ScoreValue) -> (r: String)
        ensures
            r@ == players_operation_chars(self.name@, self.objective@, "+="@, rhs.name@, rhs.objective@),
    {
        self.operation_line("+=", rhs)
    }

    /// The line that subtracts another score from the scoreboard value.
    pub fn sub_score(&self, rhs: &ScoreValue) -> (r: String)
        ensures
            r@ == players_operation_chars(self.name@, self.objective@, "-="@, rhs.name@, rhs.objective@),
    {
        self.operation_line("-=", rhs)
    }

    /// The line that multiplies the scoreboard value by another score.
    pub fn mul_score(&self, rhs: &ScoreValue) -> (r: String)
        ensures
            r@ == players_operation_chars(self.name@, self.objective@, "*="@, rhs.name@, rhs.objective@),
    {
        self.operation_line("*=", rhs)
    }

    /// The line that divides the scoreboard value by another score.
    pub fn div_score(&self, rhs: &ScoreValue) -> (r: String)
        ensures
            r@ == players_operation_chars(self.name@, self.objective@, "/="@, rhs.name@, rhs.objective@),
    {
        self.operation_line("/=", rhs)
    }

    /// The line that lowers the scoreboard value to another score when that
    /// score is smaller.
    pub fn min_score(&self, rhs: &ScoreValue) -> (r: String)
        ensures
            r@ == players_operation_chars(self.name@, self.objective@, "<"@, rhs.name@, rhs.objective@),
    {
        self.operation_line("<", rhs)
    }

    /// The line that raises the scoreboard value to another score when that
    /// score is greater.
    pub fn max_score(&self, rhs: &ScoreValue) -> (r: String)
        ensures
            r@ == players_operation_chars(self.name@, self.objective@, ">"@, rhs.name@, rhs.objective@),
    {
        self.operation_line(">", rhs)
    }

    /// The line that swaps the scoreboard value with another score.
    pub fn swap(&self, rhs: &ScoreValue) -> (r: String)
        ensures
            r@ == players_operation_chars(self.name@, self.objective@, "><"@, rhs.name@, rhs.objective@),
    {
        self.operation_line("><", rhs)
    }
}

} // verus!
