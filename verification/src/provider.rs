//! Number providers: a fixed number or a randomized distribution, encoded
//! with the scalar collapse — a constant renders as the bare number, never
//! as an object.

use vstd::prelude::*;

use crate::decimal::Decimal;
use crate::encode::Encode;
use crate::json::{jval_of, lemma_obj_rep_2, lemma_obj_rep_3, str_val, JVal, Json, ObjBuilder};

verus! {

/// A general context entity.
#[derive(PartialEq, Eq, Structural, Clone, Copy, Debug)]
pub enum ContextEntity {
    /// Represents "this" entity.
    This,
    /// Represents the "killer" entity.
    Killer,
    /// Represents the "direct_killer" entity.
    DirectKiller,
    /// Represents the "player_killer" entity.
    PlayerKiller,
}

impl ContextEntity {
    /// The wire name of the entity.
    pub open spec fn name_spec(self) -> Seq<char> {
        match self {
            ContextEntity::This => "this"@,
            ContextEntity::Killer => "killer"@,
            ContextEntity::DirectKiller => "direct_killer"@,
            ContextEntity::PlayerKiller => "player_killer"@,
        }
    }

    /// The wire name of the entity.
    pub fn name(&self) -> (r: &'static str)
        ensures
            r@ == self.name_spec(),
    {
        match self {
            ContextEntity::This => "this",
            ContextEntity::Killer => "killer",
            ContextEntity::DirectKiller => "direct_killer",
            ContextEntity::PlayerKiller => "player_killer",
        }
    }
}

/// A context entity for nbt use.
#[derive(PartialEq, Eq, Structural, Clone, Copy, Debug)]
pub enum NbtContextEntity {
    /// Represents "this" entity.
    This,
    /// Represents the "killer" entity.
    Killer,
    /// Represents the "killer_player" entity.
    KillerPlayer,
    /// Represents the "block_entity" entity.
    BlockEntity,
}

impl NbtContextEntity {
    /// The wire name of the entity.
    pub open spec fn name_spec(self) -> Seq<char> {
        match self {
            NbtContextEntity::This => "this"@,
            NbtContextEntity::Killer => "killer"@,
            NbtContextEntity::KillerPlayer => "killer_player"@,
            NbtContextEntity::BlockEntity => "block_entity"@,
        }
    }

    /// The wire name of the entity.
    pub fn name(&self) -> (r: &'static str)
        ensures
            r@ == self.name_spec(),
    {
        match self {
            NbtContextEntity::This => "this",
            NbtContextEntity::Killer => "killer",
            NbtContextEntity::KillerPlayer => "killer_player",
            NbtContextEntity::BlockEntity => "block_entity",
        }
    }
}

/// A context entity that is a player.
#[derive(PartialEq, Eq, Structural, Clone, Copy, Debug)]
pub enum PlayerContextEntity {
    /// Represents "this" entity.
    This,
    /// Represents the "killer" entity.
    Killer,
    /// Represents the "killer_player" entity.
    KillerPlayer,
}

impl PlayerContextEntity {
    /// The wire name of the entity.
    pub open spec fn name_spec(self) -> Seq<char> {
        match self {
            PlayerContextEntity::This => "this"@,
            PlayerContextEntity::Killer => "killer"@,
            PlayerContextEntity::KillerPlayer => "killer_player"@,
        }
    }

    /// The wire name of the entity.
    pub fn name(&self) -> (r: &'static str)
        ensures
            r@ == self.name_spec(),
    {
        match self {
            PlayerContextEntity::This => "this",
            PlayerContextEntity::Killer => "killer",
            PlayerContextEntity::KillerPlayer => "killer_player",
        }
    }
}

/// A numeric JSON leaf: what a [`NumberProvider`] ranges over.  Implemented
/// by `i64`, [`Decimal`] and number providers themselves; the encoding comes
/// with the [`Encode`] supertrait.
pub trait Number: Encode {

}

impl Number for i64 {

}

impl Number for Decimal {

}

/// A score target used in a [`NumberProvider`].
#[derive(Clone, Debug)]
pub enum ScoreTarget {
    /// A fixed name, encoded as `{"type":"fixed","name":...}`.
    Fixed(String),
    /// A context entity's score, encoded as its bare tag string.
    Context(ContextEntity),
}

impl ScoreTarget {
    /// The JSON document of the target.
    pub open spec fn json_rep(self) -> JVal {
        match self {
            ScoreTarget::Fixed(name) => JVal::Obj(
                seq![
                    ("type"@, JVal::Str("fixed"@)),
                    ("name"@, JVal::Str(name@)),
                ],
            ),
            ScoreTarget::Context(c) => JVal::Str(c.name_spec()),
        }
    }

    /// Encodes the target.
    pub fn to_json(&self) -> (j: Json)
        ensures
            jval_of(j) == self.json_rep(),
    {
        match self {
            ScoreTarget::Fixed(name) => {
                let mut b = ObjBuilder::new();
                b.field("type", str_val("fixed"));
                b.field("name", Json::Str(name.clone()));
                let ghost r = b.rep();
                let j = b.done();
                proof {
                    lemma_obj_rep_2(
                        r,
                        ("type"@, JVal::Str("fixed"@)),
                        ("name"@, JVal::Str(name@)),
                    );
                }
                j
            },
            ScoreTarget::Context(c) => {
                Json::Str(String::from_str(c.name()))
            },
        }
    }
}

/// A number provider: a constant, a distribution over further providers, or
/// a score lookup.  Implemented for `i64`, [`Decimal`] and nested providers
/// through [`Number`].
pub enum NumberProvider<N: Number> {
    /// A constant, encoded as the bare number itself — never as an object.
    Constant(N),
    /// A uniformly random value between `min` and `max`,
    /// `{"type":"uniform"}`.
    Uniform {
        /// The minimum value to choose.
        min: Box<NumberProvider<N>>,
        /// The maximum value to choose.
        max: Box<NumberProvider<N>>,
    },
    /// A binomially distributed value, `{"type":"binomial"}`.
    Binomial {
        /// The number of trials.
        n: Box<NumberProvider<i64>>,
        /// The probability of success of an individual trial.
        p: Box<NumberProvider<Decimal>>,
    },
    /// A score lookup, `{"type":"score"}`; a scale of exactly one is the
    /// multiplicative identity and its key is omitted.
    Score {
        /// The score's target.
        target: ScoreTarget,
        /// The score objective.
        score: String,
        /// The scale to multiply the score by; canonical default one.
        scale: Decimal,
    },
}

/// The JSON document of a number provider: a constant collapses to its bare
/// number; the other variants are objects with a `type` discriminant and
/// their fields encoded recursively; a `score` omits `scale` exactly when
/// the scale is one.
pub open spec fn provider_rep<N: Number>(p: NumberProvider<N>) -> JVal
    decreases p,
{
    match p {
        NumberProvider::Constant(n) => n.json_rep(),
        NumberProvider::Uniform { min, max } => JVal::Obj(
            seq![
                ("type"@, JVal::Str("uniform"@)),
                ("min"@, provider_rep(*min)),
                ("max"@, provider_rep(*max)),
            ],
        ),
        NumberProvider::Binomial { n, p } => JVal::Obj(
            seq![
                ("type"@, JVal::Str("binomial"@)),
                ("n"@, provider_rep(*n)),
                ("p"@, provider_rep(*p)),
            ],
        ),
        NumberProvider::Score { target, score, scale } => JVal::Obj(
            seq![
                ("type"@, JVal::Str("score"@)),
                ("target"@, target.json_rep()),
                ("score"@, JVal::Str(score@)),
            ] + (if scale.is_one() {
                Seq::empty()
            } else {
                seq![("scale"@, JVal::Dec(scale))]
            }),
        ),
    }
}

/// Encodes a number provider.
pub fn provider_to_json<N: Number>(p: &NumberProvider<N>) -> (j: Json)
    ensures
        jval_of(j) == provider_rep(*p),
    decreases *p,
{
    match p {
        NumberProvider::Constant(n) => n.to_json(),
        NumberProvider::Uniform { min, max } => {
            let mut b = ObjBuilder::new();
            b.field("type", str_val("uniform"));
            b.field("min", provider_to_json(min));
            b.field("max", provider_to_json(max));
            let ghost r = b.rep();
            let j = b.done();
            proof {
                lemma_obj_rep_3(
                    r,
                    ("type"@, JVal::Str("uniform"@)),
                    ("min"@, provider_rep(**min)),
                    ("max"@, provider_rep(**max)),
                );
                assert(jval_of(j) == provider_rep(*p));
            }
            j
        },
        NumberProvider::Binomial { n, p: prob } => {
            let mut b = ObjBuilder::new();
            b.field("type", str_val("binomial"));
            b.field("n", provider_to_json(n));
            b.field("p", provider_to_json(prob));
            let ghost r = b.rep();
            let j = b.done();
            proof {
                lemma_obj_rep_3(
                    r,
                    ("type"@, JVal::Str("binomial"@)),
                    ("n"@, provider_rep(**n)),
                    ("p"@, provider_rep(**prob)),
                );
                assert(jval_of(j) == provider_rep(*p));
            }
            j
        },
        NumberProvider::Score { target, score, scale } => {
            let mut b = ObjBuilder::new();
            b.field("type", str_val("score"));
            b.field("target", target.to_json());
            b.field("score", Json::Str(score.clone()));
            proof {
                lemma_obj_rep_3(
                    b.rep(),
                    ("type"@, JVal::Str("score"@)),
                    ("target"@, target.json_rep()),
                    ("score"@, JVal::Str(score@)),
                );
            }
            let ghost r3 = b.rep();
            if !scale.eq_one() {
                b.field("scale", Json::Dec(*scale));
            }
            let ghost r = b.rep();
            let j = b.done();
            proof {
                if scale.is_one() {
                    assert(r =~= r3 + Seq::<(Seq<char>, JVal)>::empty());
                } else {
                    assert(r =~= r3 + seq![("scale"@, JVal::Dec(*scale))]);
                }
                assert(jval_of(j) =~~= provider_rep(*p));
            }
            j
        },
    }
}

impl<N: Number> Encode for NumberProvider<N> {
    open spec fn json_rep(&self) -> JVal {
        provider_rep(*self)
    }

    fn to_json(&self) -> (j: Json) {
        provider_to_json(self)
    }
}

impl<N: Number> Number for NumberProvider<N> {

}


/// A constant provider collapses to the bare number it holds: its document
/// is the number's own, never an object.
pub proof fn lemma_constant_collapses<N: Number>(n: N)
    ensures
        provider_rep(NumberProvider::Constant(n)) == n.json_rep(),
{
}

/// An integer constant encodes as the bare integer itself.
pub proof fn lemma_int_constant_is_scalar(n: i64)
    ensures
        provider_rep(NumberProvider::<i64>::Constant(n)) == JVal::Int(n),
        !(provider_rep(NumberProvider::<i64>::Constant(n)) is Obj),
{
}

/// A score provider carries a `scale` member exactly when its scale is not
/// one: a scale of one is the multiplicative identity and its key is
/// omitted.
pub proof fn lemma_score_scale_elision<N: Number>(target: ScoreTarget, score: String, scale: Decimal)
    ensures
        scale.is_one() ==> provider_rep(NumberProvider::<N>::Score { target, score, scale })
            == JVal::Obj(
            seq![
                ("type"@, JVal::Str("score"@)),
                ("target"@, target.json_rep()),
                ("score"@, JVal::Str(score@)),
            ],
        ),
        !scale.is_one() ==> provider_rep(NumberProvider::<N>::Score { target, score, scale })
            == JVal::Obj(
            seq![
                ("type"@, JVal::Str("score"@)),
                ("target"@, target.json_rep()),
                ("score"@, JVal::Str(score@)),
                ("scale"@, JVal::Dec(scale)),
            ],
        ),
{
    let base = seq![
        ("type"@, JVal::Str("score"@)),
        ("target"@, target.json_rep()),
        ("score"@, JVal::Str(score@)),
    ];
    if scale.is_one() {
        assert(base + Seq::<(Seq<char>, JVal)>::empty() =~= base);
    } else {
        assert(base + seq![("scale"@, JVal::Dec(scale))] =~= seq![
            ("type"@, JVal::Str("score"@)),
            ("target"@, target.json_rep()),
            ("score"@, JVal::Str(score@)),
            ("scale"@, JVal::Dec(scale)),
        ]);
    }
}

} // verus!
