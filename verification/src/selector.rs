//! Entity target selectors: `@<code>` or `@<code>[key=value,...]`.

use vstd::prelude::*;

use crate::minecraft::Entity;
use crate::json::push_char;
use crate::text::{comma_join, dec_chars, join_prefix, push_u64};

verus! {

/// The kind of a selector, each with its one-letter wire code.
#[derive(PartialEq, Eq, Structural, Clone, Copy, Debug)]
pub enum SelectorType {
    /// `@s`: the executing entity.
    S,
    /// `@p`: the nearest player.
    P,
    /// `@e`: all entities.
    E,
    /// `@a`: all players.
    A,
    /// `@r`: a random player.
    R,
}

impl SelectorType {
    /// The one-letter wire code of the kind.
    pub open spec fn code_char(self) -> char {
        match self {
            SelectorType::S => 's',
            SelectorType::P => 'p',
            SelectorType::E => 'e',
            SelectorType::A => 'a',
            SelectorType::R => 'r',
        }
    }
}

/// Different sorts used in selectors, e.g. `sort=nearest`.
#[derive(PartialEq, Eq, Structural, Clone, Copy, Debug)]
pub enum SelectorSort {
    /// Represents `sort=nearest`.
    Nearest,
    /// Represents `sort=furthest`.
    Furthest,
    /// Represents `sort=arbritrary`.
    Arbritrary,
    /// Represents `sort=random`.
    Random,
}

impl SelectorSort {
    /// The wire name of the sort.
    pub open spec fn name_spec(self) -> Seq<char> {
        match self {
            SelectorSort::Nearest => "nearest"@,
            SelectorSort::Furthest => "furthest"@,
            SelectorSort::Arbritrary => "arbritrary"@,
            SelectorSort::Random => "random"@,
        }
    }

    /// The wire name of the sort.
    pub fn name(&self) -> (r: &'static str)
        ensures
            r@ == self.name_spec(),
    {
        match self {
            SelectorSort::Nearest => "nearest",
            SelectorSort::Furthest => "furthest",
            SelectorSort::Arbritrary => "arbritrary",
            SelectorSort::Random => "random",
        }
    }
}

/// A game mode, used in selectors and player predicates.
#[derive(PartialEq, Eq, Structural, Clone, Copy, Debug)]
pub enum GameMode {
    /// Represents `gamemode=creative`.
    Creative,
    /// Represents `gamemode=survival`.
    Survival,
    /// Represents `gamemode=spectator`.
    Spectator,
    /// Represents `gamemode=adventure`.
    Adventure,
}

impl GameMode {
    /// The wire name of the game mode.
    pub open spec fn name_spec(self) -> Seq<char> {
        match self {
            GameMode::Creative => "creative"@,
            GameMode::Survival => "survival"@,
            GameMode::Spectator => "spectator"@,
            GameMode::Adventure => "adventure"@,
        }
    }

    /// The wire name of the game mode.
    pub fn name(&self) -> (r: &'static str)
        ensures
            r@ == self.name_spec(),
    {
        match self {
            GameMode::Creative => "creative",
            GameMode::Survival => "survival",
            GameMode::Spectator => "spectator",
            GameMode::Adventure => "adventure",
        }
    }
}

/// The `!` prefix of a negated criterion: empty when positive.
pub open spec fn polarity_chars(positive: bool) -> Seq<char> {
    if positive {
        Seq::empty()
    } else {
        seq!['!']
    }
}

/// An entity target query: a kind and its optional criteria.
///
/// Create a selector with one of [`at_s`], [`at_p`], [`at_e`], [`at_a`] or
/// [`at_r`], then populate criteria builder-style, one call per criterion.
/// Criteria with an optional `!` take the value and a positiveness flag.
#[derive(Clone, Debug)]
pub struct Selector {
    /// The kind of the selector.
    pub sel: SelectorType,
    /// Represents `limit=`.
    pub limit: Option<u64>,
    /// Represents `sort=`.
    pub sort: Option<SelectorSort>,
    /// Represents `level=` as `min..max`.
    pub level: Option<(u64, u64)>,
    /// Represents `gamemode=`.
    pub game_mode: Option<(GameMode, bool)>,
    /// Represents `name=`.
    pub name: Option<(String, bool)>,
    /// Represents `x_rotation=` as `min..max`.
    pub x_rot: Option<(u64, u64)>,
    /// Represents `y_rotation=` as `min..max`.
    pub y_rot: Option<(u64, u64)>,
    /// Represents `type=`.
    pub ty: Option<(Entity, bool)>,
    /// Represents `tag=`.
    pub tag: Option<(String, bool)>,
}

impl Selector {
    /// The `limit=` criterion text, when set.
    pub open spec fn limit_block(self) -> Seq<Seq<char>> {
        match self.limit {
            Some(v) => seq!["limit="@ + dec_chars(v as nat)],
            None => Seq::empty(),
        }
    }

    /// The `sort=` criterion text, when set.
    pub open spec fn sort_block(self) -> Seq<Seq<char>> {
        match self.sort {
            Some(v) => seq!["sort="@ + v.name_spec()],
            None => Seq::empty(),
        }
    }

    /// The `level=min..max` criterion text, when set.
    pub open spec fn level_block(self) -> Seq<Seq<char>> {
        match self.level {
            Some((lo, hi)) => seq!["level="@ + dec_chars(lo as nat) + ".."@ + dec_chars(hi as nat)],
            None => Seq::empty(),
        }
    }

    /// The `gamemode=` criterion text, when set.
    pub open spec fn mode_block(self) -> Seq<Seq<char>> {
        match self.game_mode {
            Some((m, pos)) => seq!["gamemode="@ + polarity_chars(pos) + m.name_spec()],
            None => Seq::empty(),
        }
    }

    /// The `name=` criterion text, when set.
    pub open spec fn name_block(self) -> Seq<Seq<char>> {
        match self.name {
            Some((n, pos)) => seq!["name="@ + polarity_chars(pos) + n@],
            None => Seq::empty(),
        }
    }

    /// The `x_rotation=min..max` criterion text, when set.
    pub open spec fn xrot_block(self) -> Seq<Seq<char>> {
        match self.x_rot {
            Some((lo, hi)) => seq![
                "x_rotation="@ + dec_chars(lo as nat) + ".."@ + dec_chars(hi as nat),
            ],
            None => Seq::empty(),
        }
    }

    /// The `y_rotation=min..max` criterion text, when set.
    pub open spec fn yrot_block(self) -> Seq<Seq<char>> {
        match self.y_rot {
            Some((lo, hi)) => seq![
                "y_rotation="@ + dec_chars(lo as nat) + ".."@ + dec_chars(hi as nat),
            ],
            None => Seq::empty(),
        }
    }

    /// The `type=` criterion text, when set.
    pub open spec fn type_block(self) -> Seq<Seq<char>> {
        match self.ty {
            Some((e, pos)) => seq!["type="@ + polarity_chars(pos) + e.name_spec()],
            None => Seq::empty(),
        }
    }

    /// The `tag=` criterion text, when set.
    pub open spec fn tag_block(self) -> Seq<Seq<char>> {
        match self.tag {
            Some((t, pos)) => seq!["tag="@ + polarity_chars(pos) + t@],
            None => Seq::empty(),
        }
    }

    /// The set criteria, each rendered as `key=value`, in declared order:
    /// limit, sort, level, game-mode, name, x-rotation, y-rotation,
    /// entity-type, tag.  Unset criteria do not appear.
    pub open spec fn crit_texts(self) -> Seq<Seq<char>> {
        self.limit_block() + self.sort_block() + self.level_block() + self.mode_block()
            + self.name_block() + self.xrot_block() + self.yrot_block() + self.type_block()
            + self.tag_block()
    }

    /// A selector is bare when every criterion is unset: it then equals the
    /// bare counterpart of its kind and renders without brackets.
    pub open spec fn is_bare(self) -> bool {
        &&& self.limit is None
        &&& self.sort is None
        &&& self.level is None
        &&& self.game_mode is None
        &&& self.name is None
        &&& self.x_rot is None
        &&& self.y_rot is None
        &&& self.ty is None
        &&& self.tag is None
    }

    /// The rendering of the selector: `@<code>` when bare, otherwise
    /// `@<code>[` the set criteria comma-joined `]`.
    pub open spec fn text(self) -> Seq<char> {
        if self.crit_texts().len() == 0 {
            seq!['@', self.sel.code_char()]
        } else {
            seq!['@', self.sel.code_char(), '['] + comma_join(self.crit_texts()) + seq![']']
        }
    }

    /// What `==` means on selectors: same kind and identical criteria.
    pub open spec fn eq_spec_def(self, o: Selector) -> bool {
        &&& self.sel == o.sel
        &&& self.limit == o.limit
        &&& self.sort == o.sort
        &&& self.level == o.level
        &&& self.game_mode == o.game_mode
        &&& opt_text_flag_eq(self.name, o.name)
        &&& self.x_rot == o.x_rot
        &&& self.y_rot == o.y_rot
        &&& self.ty == o.ty
        &&& opt_text_flag_eq(self.tag, o.tag)
    }

    fn new(sel: SelectorType) -> (r: Selector)
        ensures
            r.sel == sel,
            r.is_bare(),
    {
        Selector {
            sel,
            limit: None,
            sort: None,
            level: None,
            game_mode: None,
            name: None,
            x_rot: None,
            y_rot: None,
            ty: None,
            tag: None,
        }
    }

    /// Sets the `limit` of this selector.
    pub fn limit(self, limit: u64) -> (r: Selector)
        ensures
            r == (Selector { limit: Some(limit), ..self }),
    {
        Selector { limit: Some(limit), ..self }
    }

    /// Sets the `sort` of this selector.
    pub fn sort(self, sort: SelectorSort) -> (r: Selector)
        ensures
            r == (Selector { sort: Some(sort), ..self }),
    {
        Selector { sort: Some(sort), ..self }
    }

    /// Sets the `level` of this selector.
    pub fn level(self, min: u64, max: u64) -> (r: Selector)
        ensures
            r == (Selector { level: Some((min, max)), ..self }),
    {
        Selector { level: Some((min, max)), ..self }
    }

    /// Sets the `game_mode` of this selector.
    pub fn game_mode(self, game_mode: GameMode, positive: bool) -> (r: Selector)
        ensures
            r == (Selector { game_mode: Some((game_mode, positive)), ..self }),
    {
        Selector { game_mode: Some((game_mode, positive)), ..self }
    }

    /// Sets the `name` of this selector.
    pub fn name(self, name: &str, positive: bool) -> (r: Selector)
        ensures
            r.name matches Some((n, p)) && n@ == name@ && p == positive,
            r == (Selector { name: r.name, ..self }),
    {
        Selector { name: Some((name.to_owned(), positive)), ..self }
    }

    /// Sets the `x_rot` of this selector.
    pub fn x_rot(self, min: u64, max: u64) -> (r: Selector)
        ensures
            r == (Selector { x_rot: Some((min, max)), ..self }),
    {
        Selector { x_rot: Some((min, max)), ..self }
    }

    /// Sets the `y_rot` of this selector.
    pub fn y_rot(self, min: u64, max: u64) -> (r: Selector)
        ensures
            r == (Selector { y_rot: Some((min, max)), ..self }),
    {
        Selector { y_rot: Some((min, max)), ..self }
    }

    /// Sets the `entity` type of this selector.
    pub fn entity(self, ty: Entity, positive: bool) -> (r: Selector)
        ensures
            r == (Selector { ty: Some((ty, positive)), ..self }),
    {
        Selector { ty: Some((ty, positive)), ..self }
    }

    /// Sets the `tag` of this selector.
    pub fn tag(self, tag: &str, positive: bool) -> (r: Selector)
        ensures
            r.tag matches Some((t, p)) && t@ == tag@ && p == positive,
            r == (Selector { tag: r.tag, ..self }),
    {
        Selector { tag: Some((tag.to_owned(), positive)), ..self }
    }

    /// True when the selector is the canonical default command target:
    /// the bare `@s`.
    pub fn is_bare_s(&self) -> (r: bool)
        ensures
            r == (self.sel == SelectorType::S && self.is_bare()),
    {
        let kind_ok = match self.sel {
            SelectorType::S => true,
            _ => false,
        };
        kind_ok && self.limit.is_none() && self.sort.is_none() && self.level.is_none()
            && self.game_mode.is_none() && self.name.is_none() && self.x_rot.is_none()
            && self.y_rot.is_none() && self.ty.is_none() && self.tag.is_none()
    }

    /// Renders the selector.
    pub fn render(&self) -> (r: String)
        ensures
            r@ == self.text(),
    {
        let parts = self.crit_parts();
        join_parts(self.sel, parts, Ghost(self.crit_texts()))
    }

    /// Builds the `key=value` texts of the set criteria, in declared order.
    fn crit_parts(&self) -> (parts: Vec<String>)
        ensures
            parts@.len() == self.crit_texts().len(),
            forall|i: int|
                0 <= i < parts@.len() ==> parts@[i]@ == #[trigger] self.crit_texts()[i],
    {
        let mut parts: Vec<String> = Vec::new();
        proof {
            assert(part_views(parts@) =~= Seq::<Seq<char>>::empty());
        }
        let ghost pre0: Seq<Seq<char>> = Seq::empty();
        self.append_crit_a(&mut parts, Ghost(pre0));
        let ghost pre1 = pre0 + self.limit_block() + self.sort_block() + self.level_block();
        self.append_crit_b(&mut parts, Ghost(pre1));
        let ghost pre2 = pre1 + self.mode_block() + self.name_block() + self.xrot_block();
        self.append_crit_c(&mut parts, Ghost(pre2));
        proof {
            assert(part_views(parts@) =~= self.crit_texts());
            lemma_part_views_len(parts@);
            assert forall|i: int|
                0 <= i < parts@.len() implies parts@[i]@ == #[trigger] self.crit_texts()[i] by {
                lemma_part_views_index(parts@, i);
            }
        }
        parts
    }

    fn append_crit_a(&self, parts: &mut Vec<String>, Ghost(prefix): Ghost<Seq<Seq<char>>>)
        requires
            part_views(old(parts)@) == prefix,
        ensures
            part_views(final(parts)@) == prefix + self.limit_block() + self.sort_block()
                + self.level_block(),
    {
        if let Some(v) = &self.limit {
            let mut p = String::from_str("limit=");
            push_u64(&mut p, *v);
            proof {
                lemma_part_views_push(parts@, p);
            }
            parts.push(p);
        }
        proof {
            assert(part_views(parts@) =~= prefix + self.limit_block());
        }
        let ghost d1 = part_views(parts@);
        if let Some(v) = &self.sort {
            let mut p = String::from_str("sort=");
            p.append(v.name());
            proof {
                lemma_part_views_push(parts@, p);
            }
            parts.push(p);
        }
        proof {
            assert(part_views(parts@) =~= d1 + self.sort_block());
        }
        let ghost d2 = part_views(parts@);
        if let Some((lo, hi)) = &self.level {
            let p = range_text("level=", *lo, *hi);
            proof {
                lemma_part_views_push(parts@, p);
            }
            parts.push(p);
        }
        proof {
            assert(part_views(parts@) =~= d2 + self.level_block());
            assert(part_views(parts@) =~= prefix + self.limit_block() + self.sort_block()
                + self.level_block());
        }
    }

    fn append_crit_b(&self, parts: &mut Vec<String>, Ghost(prefix): Ghost<Seq<Seq<char>>>)
        requires
            part_views(old(parts)@) == prefix,
        ensures
            part_views(final(parts)@) == prefix + self.mode_block() + self.name_block()
                + self.xrot_block(),
    {
        if let Some((m, pos)) = &self.game_mode {
            let mut p = String::from_str("gamemode=");
            if !*pos {
                p.append("!");
            }
            p.append(m.name());
            proof {
                reveal_strlit("!");
                assert(p@ =~= "gamemode="@ + polarity_chars(*pos) + m.name_spec());
                lemma_part_views_push(parts@, p);
            }
            parts.push(p);
        }
        proof {
            assert(part_views(parts@) =~= prefix + self.mode_block());
        }
        let ghost d1 = part_views(parts@);
        if let Some((n, pos)) = &self.name {
            let mut p = String::from_str("name=");
            if !*pos {
                p.append("!");
            }
            p.append(n.as_str());
            proof {
                reveal_strlit("!");
                assert(p@ =~= "name="@ + polarity_chars(*pos) + n@);
                lemma_part_views_push(parts@, p);
            }
            parts.push(p);
        }
        proof {
            assert(part_views(parts@) =~= d1 + self.name_block());
        }
        let ghost d2 = part_views(parts@);
        if let Some((lo, hi)) = &self.x_rot {
            let p = range_text("x_rotation=", *lo, *hi);
            proof {
                lemma_part_views_push(parts@, p);
            }
            parts.push(p);
        }
        proof {
            assert(part_views(parts@) =~= d2 + self.xrot_block());
            assert(part_views(parts@) =~= prefix + self.mode_block() + self.name_block()
                + self.xrot_block());
        }
    }

    fn append_crit_c(&self, parts: &mut Vec<String>, Ghost(prefix): Ghost<Seq<Seq<char>>>)
        requires
            part_views(old(parts)@) == prefix,
        ensures
            part_views(final(parts)@) == prefix + self.yrot_block() + self.type_block()
                + self.tag_block(),
    {
        if let Some((lo, hi)) = &self.y_rot {
            let p = range_text("y_rotation=", *lo, *hi);
            proof {
                lemma_part_views_push(parts@, p);
            }
            parts.push(p);
        }
        proof {
            assert(part_views(parts@) =~= prefix + self.yrot_block());
        }
        let ghost d1 = part_views(parts@);
        if let Some((e, pos)) = &self.ty {
            let mut p = String::from_str("type=");
            if !*pos {
                p.append("!");
            }
            p.append(e.name());
            proof {
                reveal_strlit("!");
                assert(p@ =~= "type="@ + polarity_chars(*pos) + e.name_spec());
                lemma_part_views_push(parts@, p);
            }
            parts.push(p);
        }
        proof {
            assert(part_views(parts@) =~= d1 + self.type_block());
        }
        let ghost d2 = part_views(parts@);
        if let Some((t, pos)) = &self.tag {
            let mut p = String::from_str("tag=");
            if !*pos {
                p.append("!");
            }
            p.append(t.as_str());
            proof {
                reveal_strlit("!");
                assert(p@ =~= "tag="@ + polarity_chars(*pos) + t@);
                lemma_part_views_push(parts@, p);
            }
            parts.push(p);
        }
        proof {
            assert(part_views(parts@) =~= d2 + self.tag_block());
            assert(part_views(parts@) =~= prefix + self.yrot_block() + self.type_block()
                + self.tag_block());
        }
    }
}

/// The texts of a list of built criteria.
pub open spec fn part_views(s: Seq<String>) -> Seq<Seq<char>>
    decreases s.len(),
{
    if s.len() == 0 {
        Seq::empty()
    } else {
        part_views(s.subrange(0, s.len() - 1)).push(s.last()@)
    }
}

proof fn lemma_part_views_len(s: Seq<String>)
    ensures
        part_views(s).len() == s.len(),
    decreases s.len(),
{
    if s.len() > 0 {
        lemma_part_views_len(s.subrange(0, s.len() - 1));
    }
}

proof fn lemma_part_views_push(s: Seq<String>, x: String)
    ensures
        part_views(s.push(x)) == part_views(s).push(x@),
{
    assert(s.push(x).subrange(0, s.push(x).len() - 1) =~= s);
    assert(s.push(x).last() == x);
}

proof fn lemma_part_views_index(s: Seq<String>, i: int)
    requires
        0 <= i < s.len(),
    ensures
        part_views(s).len() == s.len(),
        part_views(s)[i] == s[i]@,
    decreases s.len(),
{
    lemma_part_views_len(s);
    if i < s.len() - 1 {
        lemma_part_views_index(s.subrange(0, s.len() - 1), i);
        assert(s.subrange(0, s.len() - 1)[i] == s[i]);
    }
}



/// What equality of an optional text criterion means: both unset, or set to
/// the same text and the same polarity.
pub open spec fn opt_text_flag_eq(a: Option<(String, bool)>, b: Option<(String, bool)>) -> bool {
    match (a, b) {
        (None, None) => true,
        (Some((x, p)), Some((y, q))) => x@ == y@ && p == q,
        _ => false,
    }
}

fn opt_text_flag_eq_exec(a: &Option<(String, bool)>, b: &Option<(String, bool)>) -> (r: bool)
    ensures
        r == opt_text_flag_eq(*a, *b),
{
    match (a, b) {
        (None, None) => true,
        (Some((x, p)), Some((y, q))) => x.eq(y) && p == q,
        _ => false,
    }
}

fn push_code(sel: SelectorType, out: &mut String)
    ensures
        final(out)@ == old(out)@.push(sel.code_char()),
{
    match sel {
        SelectorType::S => push_char(out, 's'),
        SelectorType::P => push_char(out, 'p'),
        SelectorType::E => push_char(out, 'e'),
        SelectorType::A => push_char(out, 'a'),
        SelectorType::R => push_char(out, 'r'),
    }
}

fn range_text(prefix: &'static str, lo: u64, hi: u64) -> (r: String)
    ensures
        r@ == prefix@ + dec_chars(lo as nat) + ".."@ + dec_chars(hi as nat),
{
    let mut p = String::from_str(prefix);
    push_u64(&mut p, lo);
    p.append("..");
    push_u64(&mut p, hi);
    proof {
        assert(p@ =~= prefix@ + dec_chars(lo as nat) + ".."@ + dec_chars(hi as nat));
    }
    p
}

impl PartialEq for Selector {
    /// Selectors are equal exactly when they have the same kind and identical
    /// criteria.
    fn eq(&self, o: &Selector) -> (r: bool) {
        let kinds = match (self.sel, o.sel) {
            (SelectorType::S, SelectorType::S) => true,
            (SelectorType::P, SelectorType::P) => true,
            (SelectorType::E, SelectorType::E) => true,
            (SelectorType::A, SelectorType::A) => true,
            (SelectorType::R, SelectorType::R) => true,
            _ => false,
        };
        kinds && opt_u64_eq(&self.limit, &o.limit) && opt_sort_eq(&self.sort, &o.sort)
            && opt_pair_eq(&self.level, &o.level) && opt_mode_eq(&self.game_mode, &o.game_mode)
            && opt_text_flag_eq_exec(&self.name, &o.name) && opt_pair_eq(&self.x_rot, &o.x_rot)
            && opt_pair_eq(&self.y_rot, &o.y_rot) && opt_entity_eq(&self.ty, &o.ty)
            && opt_text_flag_eq_exec(&self.tag, &o.tag)
    }
}

impl vstd::std_specs::cmp::PartialEqSpecImpl for Selector {
    open spec fn obeys_eq_spec() -> bool {
        true
    }

    open spec fn eq_spec(&self, o: &Selector) -> bool {
        self.eq_spec_def(*o)
    }
}

fn opt_u64_eq(a: &Option<u64>, b: &Option<u64>) -> (r: bool)
    ensures
        r == (*a == *b),
{
    match (a, b) {
        (None, None) => true,
        (Some(x), Some(y)) => x == y,
        _ => false,
    }
}

fn opt_pair_eq(a: &Option<(u64, u64)>, b: &Option<(u64, u64)>) -> (r: bool)
    ensures
        r == (*a == *b),
{
    match (a, b) {
        (None, None) => true,
        (Some((x1, x2)), Some((y1, y2))) => x1 == y1 && x2 == y2,
        _ => false,
    }
}

fn opt_sort_eq(a: &Option<SelectorSort>, b: &Option<SelectorSort>) -> (r: bool)
    ensures
        r == (*a == *b),
{
    match (a, b) {
        (None, None) => true,
        (Some(x), Some(y)) => x == y,
        _ => false,
    }
}

fn opt_mode_eq(a: &Option<(GameMode, bool)>, b: &Option<(GameMode, bool)>) -> (r: bool)
    ensures
        r == (*a == *b),
{
    match (a, b) {
        (None, None) => true,
        (Some((x, p)), Some((y, q))) => x == y && p == q,
        _ => false,
    }
}

fn opt_entity_eq(a: &Option<(Entity, bool)>, b: &Option<(Entity, bool)>) -> (r: bool)
    ensures
        r == (*a == *b),
{
    match (a, b) {
        (None, None) => true,
        (Some((x, p)), Some((y, q))) => x == y && p == q,
        _ => false,
    }
}

/// Creates an `@s` selector.
pub fn at_s() -> (r: Selector)
    ensures
        r.sel == SelectorType::S,
        r.is_bare(),
{
    Selector::new(SelectorType::S)
}

/// Creates an `@p` selector.
pub fn at_p() -> (r: Selector)
    ensures
        r.sel == SelectorType::P,
        r.is_bare(),
{
    Selector::new(SelectorType::P)
}

/// Creates an `@e` selector.
pub fn at_e() -> (r: Selector)
    ensures
        r.sel == SelectorType::E,
        r.is_bare(),
{
    Selector::new(SelectorType::E)
}

/// Creates an `@a` selector.
pub fn at_a() -> (r: Selector)
    ensures
        r.sel == SelectorType::A,
        r.is_bare(),
{
    Selector::new(SelectorType::A)
}

/// Creates an `@r` selector.
pub fn at_r() -> (r: Selector)
    ensures
        r.sel == SelectorType::R,
        r.is_bare(),
{
    Selector::new(SelectorType::R)
}


fn join_parts(sel: SelectorType, parts: Vec<String>, Ghost(texts): Ghost<Seq<Seq<char>>>) -> (r:
    String)
    requires
        parts@.len() == texts.len(),
        forall|i: int| 0 <= i < parts@.len() ==> parts@[i]@ == #[trigger] texts[i],
    ensures
        r@ == (if texts.len() == 0 {
            seq!['@', sel.code_char()]
        } else {
            seq!['@', sel.code_char(), '['] + comma_join(texts) + seq![']']
        }),
{
    let mut out = String::new();
    push_char(&mut out, '@');
    push_code(sel, &mut out);
    if parts.len() > 0 {
        out.append("[");
        proof {
            reveal_strlit("[");
            assert(out@ =~= seq!['@', sel.code_char(), '['] + join_prefix(texts, 0));
        }
        let mut k: usize = 0;
        while k < parts.len()
            invariant
                k <= parts.len(),
                parts@.len() == texts.len(),
                forall|i: int| 0 <= i < parts@.len() ==> parts@[i]@ == #[trigger] texts[i],
                out@ == seq!['@', sel.code_char(), '['] + join_prefix(texts, k as int),
            decreases parts.len() - k,
        {
            if k > 0 {
                out.append(",");
            }
            out.append(parts[k].as_str());
            proof {
                reveal_strlit(",");
                assert(","@ =~= seq![',']);
                assert(out@ =~= seq!['@', sel.code_char(), '['] + join_prefix(texts, k as int + 1));
            }
            k = k + 1;
        }
        out.append("]");
        proof {
            reveal_strlit("]");
            assert(out@ =~= seq!['@', sel.code_char(), '['] + comma_join(texts) + seq![']']);
        }
    } else {
        proof {
            assert(out@ =~= seq!['@', sel.code_char()]);
        }
    }
    out
}


/// A selector renders bare — `@` and its code, no brackets — exactly when
/// every criterion is unset: it then equals the bare counterpart of its
/// kind.
pub proof fn lemma_bare_selector_render(s: Selector)
    ensures
        s.is_bare() <==> s.crit_texts().len() == 0,
        s.is_bare() ==> s.text() == seq!['@', s.sel.code_char()],
{
}

/// What selector equality is: two selectors are equal exactly when they
/// have the same kind and identical criteria — and that is what `==`
/// returns on selectors.
pub proof fn lemma_selector_equality(a: Selector, b: Selector)
    ensures
        a.eq_spec_def(b) <==> {
            &&& a.sel == b.sel
            &&& a.limit == b.limit
            &&& a.sort == b.sort
            &&& a.level == b.level
            &&& a.game_mode == b.game_mode
            &&& opt_text_flag_eq(a.name, b.name)
            &&& a.x_rot == b.x_rot
            &&& a.y_rot == b.y_rot
            &&& a.ty == b.ty
            &&& opt_text_flag_eq(a.tag, b.tag)
        },
{
}

} // verus!
