//! Commands and the function files that hold them.
//!
//! Each command is a record of positional fields in a fixed order, each with
//! a documented canonical default.  Rendering scans the fields in order and
//! prints every field up to and including the last one that deviates from
//! its default: the external syntax is positional, so a default-valued field
//! before a deviating one still prints, and nothing after the last deviation
//! prints.  A selector-typed leading field counts as default exactly when it
//! is the bare `@s`.
//!
//! Build a command with its constructor function of the same name, then
//! override fields with struct update syntax, and hand it to
//! [`Function::run`].

#![allow(non_snake_case)]

use vstd::prelude::*;

use crate::coord::Coordinates;
use crate::ident::Identifier;
use crate::minecraft::{Block, Effect, Item};
use crate::selector::{at_s, Selector, SelectorType};
use crate::text::{bool_chars, bool_str, dec_chars, push_u64};

verus! {

/// The line a command contributes to a function file, under the function's
/// current prefix: an empty prefix stands alone, a non-empty one is joined
/// to the command with ` run `.
pub open spec fn run_line_chars(prefix: Seq<char>, body: Seq<char>) -> Seq<char> {
    if prefix.len() == 0 {
        body
    } else {
        prefix + " run "@ + body
    }
}

/// A trait that commands implement.
pub trait Command: Sized {
    /// The rendered command line.
    spec fn text(&self) -> Seq<char>;

    /// Appends the rendered command line to `out`.
    fn output(self, out: &mut String)
        ensures
            final(out)@ == old(out)@ + self.text(),
    ;
}

/// A handle to a function file: where it goes, and its lines so far.
/// Created with [`Datapack::function`](crate::datapack::Datapack::function);
/// the artifact sink writes `lines` to `path` once building is done.
pub struct Function {
    /// The file path of the function, under the datapack's data directory.
    pub path: String,
    /// The prefix every line is run under; empty for a plain function.
    pub prefix: String,
    /// The command lines of the function, in order.
    pub lines: Vec<String>,
}

impl Function {
    /// Creates the handle for the function file `id` names under `data`.
    pub fn new(data: &str, id: &Identifier) -> (r: Function)
        ensures
            r.path@ == id.path_chars(data@, "functions"@, "mcfunction"@),
            r.prefix@ == Seq::<char>::empty(),
            r.lines@ == Seq::<String>::empty(),
    {
        Function { path: id.join(data, "functions", "mcfunction"), prefix: String::new(), lines: Vec::new() }
    }

    /// Runs a [`Command`]: renders it under the prefix and appends the line.
    pub fn run<C: Command>(&mut self, cmd: C)
        ensures
            final(self).path == old(self).path,
            final(self).prefix == old(self).prefix,
            final(self).lines@.len() == old(self).lines@.len() + 1,
            final(self).lines@.subrange(0, old(self).lines@.len() as int) == old(self).lines@,
            final(self).lines@.last()@ == run_line_chars(old(self).prefix@, cmd.text()),
    {
        let mut line = self.prefix.clone();
        if line.as_str().unicode_len() > 0 {
            line.append(" run ");
        }
        cmd.output(&mut line);
        proof {
            assert(line@ =~= run_line_chars(self.prefix@, cmd.text()));
        }
        self.lines.push(line);
        proof {
            assert(final(self).lines@.subrange(0, old(self).lines@.len() as int) =~= old(
                self,
            ).lines@);
        }
    }

    /// Appends an already rendered line, as the score operations produce.
    pub fn run_line(&mut self, line: String)
        ensures
            final(self).path == old(self).path,
            final(self).prefix == old(self).prefix,
            final(self).lines@ == old(self).lines@.push(line),
    {
        self.lines.push(line);
    }

    /// Creates a [`ScoreValue`](crate::score::ScoreValue), given its name
    /// and objective.
    pub fn score(&self, name: &str, objective: &str) -> (r: crate::score::ScoreValue)
        ensures
            r.name@ == name@,
            r.objective@ == objective@,
    {
        crate::score::ScoreValue::new(name, objective)
    }
}

/// The `give` command.
/// Syntax: `give <target> <item> [<count>]`, count defaulting to 1.
pub struct Give {
    /// Who receives the item.
    pub target: Selector,
    /// The item to give.
    pub item: Item,
    /// How many to give; prints only when not 1.
    pub count: u64,
}

/// A `give` command with the default count of 1.
pub fn Give(target: Selector, item: Item) -> (r: Give)
    ensures
        r.target == target,
        r.item == item,
        r.count == 1,
{
    Give { target, item, count: 1 }
}

impl Command for Give {
    open spec fn text(&self) -> Seq<char> {
        "give "@ + self.target.text() + seq![' '] + self.item.name_spec() + (if self.count == 1 {
            Seq::empty()
        } else {
            seq![' '] + dec_chars(self.count as nat)
        })
    }

    fn output(self, out: &mut String) {
        out.append("give ");
        let t = self.target.render();
        out.append(t.as_str());
        out.append(" ");
        out.append(self.item.name());
        if self.count != 1 {
            out.append(" ");
            push_u64(out, self.count);
        }
        proof {
            reveal_strlit("give ");
            reveal_strlit(" ");
            assert(" "@ =~= seq![' ']);
            assert(final(out)@ =~= old(out)@ + self.text());
        }
    }
}

/// The `clear` command.
/// Syntax: `clear [<target>] [<item>] [<count>]`, target defaulting to the
/// bare `@s`.
pub struct Clear {
    /// Whose inventory to clear.
    pub target: Selector,
    /// The item to clear, with an optional maximum count.
    pub item: Option<(Item, Option<u64>)>,
}

/// A `clear` command with every field at its default.
pub fn Clear() -> (r: Clear)
    ensures
        r.target.sel == SelectorType::S && r.target.is_bare(),
        r.item is None,
{
    Clear { target: at_s(), item: None }
}

impl Command for Clear {
    open spec fn text(&self) -> Seq<char> {
        "clear"@ + (match self.item {
            Some((item, Some(count))) => seq![' '] + self.target.text() + seq![' ']
                + item.name_spec() + seq![' '] + dec_chars(count as nat),
            Some((item, None)) => seq![' '] + self.target.text() + seq![' '] + item.name_spec(),
            None => if self.target.sel == SelectorType::S && self.target.is_bare() {
                Seq::empty()
            } else {
                seq![' '] + self.target.text()
            },
        })
    }

    fn output(self, out: &mut String) {
        out.append("clear");
        match self.item {
            Some((item, count)) => {
                out.append(" ");
                let t = self.target.render();
                out.append(t.as_str());
                out.append(" ");
                out.append(item.name());
                if let Some(c) = count {
                    out.append(" ");
                    push_u64(out, c);
                }
            },
            None => {
                if !self.target.is_bare_s() {
                    out.append(" ");
                    let t = self.target.render();
                    out.append(t.as_str());
                }
            },
        }
        proof {
            reveal_strlit("clear");
            reveal_strlit(" ");
            assert(" "@ =~= seq![' ']);
            assert(final(out)@ =~= old(out)@ + self.text());
        }
    }
}

/// The `setblock` command.
/// Syntax: `setblock <location> <block>`.
pub struct Setblock {
    /// Where to place the block.
    pub location: Coordinates,
    /// The block to place.
    pub block: Block,
}

/// A `setblock` command.
pub fn Setblock(location: Coordinates, block: Block) -> (r: Setblock)
    ensures
        r.location == location,
        r.block == block,
{
    Setblock { location, block }
}

impl Command for Setblock {
    open spec fn text(&self) -> Seq<char> {
        "setblock "@ + self.location.text() + seq![' '] + self.block.name_spec()
    }

    fn output(self, out: &mut String) {
        out.append("setblock ");
        self.location.push_text(out);
        out.append(" ");
        out.append(self.block.name());
        proof {
            reveal_strlit("setblock ");
            reveal_strlit(" ");
            assert(" "@ =~= seq![' ']);
            assert(final(out)@ =~= old(out)@ + self.text());
        }
    }
}

/// The `kill` command.
/// Syntax: `kill [<target>]`, target defaulting to the bare `@s`.
pub struct Kill {
    /// Whom to kill.
    pub target: Selector,
}

/// A `kill` command with the default target.
pub fn Kill() -> (r: Kill)
    ensures
        r.target.sel == SelectorType::S && r.target.is_bare(),
{
    Kill { target: at_s() }
}

impl Command for Kill {
    open spec fn text(&self) -> Seq<char> {
        "kill"@ + (if self.target.sel == SelectorType::S && self.target.is_bare() {
            Seq::empty()
        } else {
            seq![' '] + self.target.text()
        })
    }

    fn output(self, out: &mut String) {
        out.append("kill");
        if !self.target.is_bare_s() {
            out.append(" ");
            let t = self.target.render();
            out.append(t.as_str());
        }
        proof {
            reveal_strlit("kill");
            reveal_strlit(" ");
            assert(" "@ =~= seq![' ']);
            assert(final(out)@ =~= old(out)@ + self.text());
        }
    }
}

/// The `effect give` subcommand.
/// Syntax: `effect give <target> <effect> [<seconds>] [<amplifier>]
/// [<hide_particles>]`, with defaults 30, 0 and false: every trailing field
/// up to the last deviating one prints, defaults included.
pub struct EffectGive {
    /// Who receives the effect.
    pub target: Selector,
    /// The effect to give.
    pub effect: Effect,
    /// How long the effect lasts; canonical default 30.
    pub seconds: u64,
    /// The effect amplifier; canonical default 0.
    pub amplifier: u64,
    /// Whether particles are hidden; canonical default false.
    pub hide_particles: bool,
}

/// An `effect give` command with every optional field at its default.
pub fn EffectGive(target: Selector, effect: Effect) -> (r: EffectGive)
    ensures
        r.target == target,
        r.effect == effect,
        r.seconds == 30,
        r.amplifier == 0,
        r.hide_particles == false,
{
    EffectGive { target, effect, seconds: 30, amplifier: 0, hide_particles: false }
}

impl EffectGive {
    /// The index of the last field that deviates from its canonical
    /// default: 0 when none does, 1 for seconds, 2 for amplifier, 3 for
    /// hide-particles.
    pub open spec fn variation(&self) -> int {
        if self.hide_particles {
            3
        } else if self.amplifier != 0 {
            2
        } else if self.seconds != 30 {
            1
        } else {
            0
        }
    }
}

impl Command for EffectGive {
    open spec fn text(&self) -> Seq<char> {
        "effect give "@ + self.target.text() + seq![' '] + self.effect.name_spec() + (if self.variation() >= 1 {
            seq![' '] + dec_chars(self.seconds as nat)
        } else {
            Seq::empty()
        }) + (if self.variation() >= 2 {
            seq![' '] + dec_chars(self.amplifier as nat)
        } else {
            Seq::empty()
        }) + (if self.variation() >= 3 {
            seq![' '] + bool_chars(self.hide_particles)
        } else {
            Seq::empty()
        })
    }

    fn output(self, out: &mut String) {
        out.append("effect give ");
        let t = self.target.render();
        out.append(t.as_str());
        out.append(" ");
        out.append(self.effect.name());
        let variation: u64 = if self.hide_particles {
            3
        } else if self.amplifier != 0 {
            2
        } else if self.seconds != 30 {
            1
        } else {
            0
        };
        if variation >= 1 {
            out.append(" ");
            push_u64(out, self.seconds);
        }
        if variation >= 2 {
            out.append(" ");
            push_u64(out, self.amplifier);
        }
        if variation >= 3 {
            out.append(" ");
            out.append(bool_str(self.hide_particles));
        }
        proof {
            reveal_strlit("effect give ");
            reveal_strlit(" ");
            assert(" "@ =~= seq![' ']);
            assert(final(out)@ =~= old(out)@ + self.text());
        }
    }
}

/// The `effect clear` subcommand.
/// Syntax: `effect clear [<target>] [<effect>]`, target defaulting to the
/// bare `@s`: a set effect forces the target to print.
pub struct EffectClear {
    /// Whose effects to clear.
    pub target: Selector,
    /// The one effect to clear; all effects when unset.
    pub effect: Option<Effect>,
}

/// An `effect clear` command with every field at its default.
pub fn EffectClear() -> (r: EffectClear)
    ensures
        r.target.sel == SelectorType::S && r.target.is_bare(),
        r.effect is None,
{
    EffectClear { target: at_s(), effect: None }
}

impl Command for EffectClear {
    open spec fn text(&self) -> Seq<char> {
        "effect clear"@ + (if self.effect is Some || !(self.target.sel == SelectorType::S
            && self.target.is_bare()) {
            seq![' '] + self.target.text()
        } else {
            Seq::empty()
        }) + (match self.effect {
            Some(e) => seq![' '] + e.name_spec(),
            None => Seq::empty(),
        })
    }

    fn output(self, out: &mut String) {
        out.append("effect clear");
        if self.effect.is_some() || !self.target.is_bare_s() {
            out.append(" ");
            let t = self.target.render();
            out.append(t.as_str());
        }
        if let Some(e) = self.effect {
            out.append(" ");
            out.append(e.name());
        }
        proof {
            reveal_strlit("effect clear");
            reveal_strlit(" ");
            assert(" "@ =~= seq![' ']);
            assert(final(out)@ =~= old(out)@ + self.text());
        }
    }
}


/// With every optional field at its canonical default, an effect-give
/// command renders only the keyword and its required target and effect.
pub proof fn lemma_effect_give_all_default(target: Selector, effect: Effect)
    ensures
        (EffectGive { target, effect, seconds: 30, amplifier: 0, hide_particles: false }).text()
            == "effect give "@ + target.text() + seq![' '] + effect.name_spec(),
{
    let cmd = EffectGive { target, effect, seconds: 30, amplifier: 0, hide_particles: false };
    assert(cmd.variation() == 0);
    assert(cmd.text() =~= "effect give "@ + target.text() + seq![' '] + effect.name_spec());
}

/// A set hide-particles flag is the last deviating field, so every earlier
/// optional field prints before it — the default seconds and amplifier
/// included — because the command syntax is positional.
pub proof fn lemma_effect_give_trailing_forces_defaults(target: Selector, effect: Effect)
    ensures
        (EffectGive { target, effect, seconds: 30, amplifier: 0, hide_particles: true }).text()
            == "effect give "@ + target.text() + seq![' '] + effect.name_spec() + seq![' ']
            + dec_chars(30) + seq![' '] + dec_chars(0) + seq![' '] + bool_chars(true),
{
    let cmd = EffectGive { target, effect, seconds: 30, amplifier: 0, hide_particles: true };
    assert(cmd.variation() == 3);
    assert(cmd.text() =~= "effect give "@ + target.text() + seq![' '] + effect.name_spec() + seq![
        ' ',
    ] + dec_chars(30) + seq![' '] + dec_chars(0) + seq![' '] + bool_chars(true));
}

} // verus!
