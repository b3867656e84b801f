use vstd::prelude::*;
use crate::commands::{Command, CommandView, category_name, commands_view};
use crate::context::{CommandContext, ContextView};
use crate::registry::{applicable, is_command_applicable};
use crate::text::{lower_of, lowercase, occurs_at, pop_char, push_char, seq_contains, text_contains};

verus! {

/// A command matches a lower-case query when its lower-cased name, description,
/// one of its keywords, or its category name contains the query.
pub open spec fn matches_query(c: CommandView, q: Seq<char>) -> bool {
    ||| seq_contains(lower_of(c.name), q)
    ||| seq_contains(lower_of(c.description), q)
    ||| exists|k: int| 0 <= k < c.keywords.len() && seq_contains(lower_of(#[trigger] c.keywords[k]), q)
    ||| seq_contains(lower_of(category_name(c.category)), q)
}

/// Whether a command stays in the palette for a given input: it is applicable,
/// and the input is empty or the command matches the lower-cased input.
pub open spec fn kept(ctx: ContextView, input: Seq<char>, c: CommandView) -> bool {
    applicable(ctx, c) && (input.len() == 0 || matches_query(c, lower_of(input)))
}

/// Predicate form of `kept`.
pub open spec fn kept_by(ctx: ContextView, input: Seq<char>) -> spec_fn(CommandView) -> bool {
    |c: CommandView| kept(ctx, input, c)
}

/// The commands shown for an input, in catalog order.
pub open spec fn filtered(cs: Seq<CommandView>, ctx: ContextView, input: Seq<char>) -> Seq<
    CommandView,
> {
    cs.filter(kept_by(ctx, input))
}

/// A filter by a stronger predicate keeps no more elements than one by a weaker.
pub proof fn lemma_filter_stronger<A>(s: Seq<A>, p: spec_fn(A) -> bool, q: spec_fn(A) -> bool)
    requires
        forall|x: A| #[trigger] p(x) ==> q(x),
    ensures
        s.filter(p).len() <= s.filter(q).len(),
    decreases s.len(),
{
    reveal(Seq::filter);
    if s.len() > 0 {
        lemma_filter_stronger(s.drop_last(), p, q);
    }
}

/// The commands shown for any input are never more than those shown for the empty input.
pub proof fn lemma_filter_count_bounded(cs: Seq<CommandView>, ctx: ContextView, input: Seq<char>)
    ensures
        filtered(cs, ctx, input).len() <= filtered(cs, ctx, Seq::empty()).len(),
{
    assert forall|c: CommandView| #[trigger] kept_by(ctx, input)(c) implies kept_by(
        ctx,
        Seq::empty(),
    )(c) by {}
    lemma_filter_stronger(cs, kept_by(ctx, input), kept_by(ctx, Seq::empty()));
}

/// A text that contains a query also contains every prefix of it.
pub proof fn lemma_contains_prefix(h: Seq<char>, a: Seq<char>, b: Seq<char>)
    requires
        a.is_prefix_of(b),
        seq_contains(h, b),
    ensures
        seq_contains(h, a),
{
    let i = choose|i: int| occurs_at(h, b, i);
    assert(h.subrange(i, i + a.len()) =~= a) by {
        assert forall|t: int| 0 <= t < a.len() implies h.subrange(i, i + a.len())[t] == a[t] by {
            assert(h.subrange(i, i + b.len())[t] == b[t]);
        }
    }
    assert(occurs_at(h, a, i));
}

/// A command that matches a query also matches every prefix of it.
pub proof fn lemma_matches_prefix(c: CommandView, a: Seq<char>, b: Seq<char>)
    requires
        a.is_prefix_of(b),
        matches_query(c, b),
    ensures
        matches_query(c, a),
{
    if seq_contains(lower_of(c.name), b) {
        lemma_contains_prefix(lower_of(c.name), a, b);
    } else if seq_contains(lower_of(c.description), b) {
        lemma_contains_prefix(lower_of(c.description), a, b);
    } else if seq_contains(lower_of(category_name(c.category)), b) {
        lemma_contains_prefix(lower_of(category_name(c.category)), a, b);
    } else {
        let k = choose|k: int| 0 <= k < c.keywords.len() && seq_contains(lower_of(#[trigger] c.keywords[k]), b);
        lemma_contains_prefix(lower_of(c.keywords[k]), a, b);
    }
}

/// When a non-empty input shows no command, appending a character still shows
/// none, as long as lower-casing the longer input extends lower-casing the
/// shorter one (true of every text whose lower-case form is computed character
/// by character).
pub proof fn lemma_extend_unmatched(cs: Seq<CommandView>, ctx: ContextView, input: Seq<char>, ch: char)
    requires
        input.len() > 0,
        filtered(cs, ctx, input).len() == 0,
        lower_of(input).is_prefix_of(lower_of(input.push(ch))),
    ensures
        filtered(cs, ctx, input.push(ch)).len() == 0,
{
    let longer = input.push(ch);
    if filtered(cs, ctx, longer).len() > 0 {
        let c = filtered(cs, ctx, longer)[0];
        cs.lemma_filter_pred(kept_by(ctx, longer), 0);
        assert(filtered(cs, ctx, longer).contains(c));
        cs.lemma_filter_contains_rev(kept_by(ctx, longer), c);
        let i = choose|i: int| 0 <= i < cs.len() && cs[i] == c;
        lemma_matches_prefix(c, lower_of(input), lower_of(longer));
        assert(kept_by(ctx, input)(cs[i]));
        cs.lemma_filter_contains(kept_by(ctx, input), i);
    }
}

/// Whether any of the given lower-cased texts contains the lower-cased query.
pub fn any_contains(lowered: &Vec<String>, query: &str) -> (r: bool)
    ensures
        r == exists|k: int| 0 <= k < lowered@.len() && seq_contains(#[trigger] lowered@[k]@, query@),
{
    let mut i: usize = 0;
    while i < lowered.len()
        invariant
            i <= lowered@.len(),
            forall|k: int| 0 <= k < i ==> !seq_contains(#[trigger] lowered@[k]@, query@),
        decreases lowered.len() - i,
    {
        if text_contains(lowered[i].as_str(), query) {
            return true;
        }
        i = i + 1;
    }
    false
}

/// Whether a command matches a query that is already lower-case.
pub fn command_matches(command: &Command, query: &str) -> (r: bool)
    ensures
        r == matches_query(command@, query@),
{
    let mut texts: Vec<String> = Vec::new();
    texts.push(lowercase(command.name.as_str()));
    texts.push(lowercase(command.description.as_str()));
    let mut i: usize = 0;
    while i < command.keywords.len()
        invariant
            i <= command.keywords@.len(),
            texts@.len() == 2 + i,
            texts@[0]@ == lower_of(command@.name),
            texts@[1]@ == lower_of(command@.description),
            forall|k: int| 0 <= k < i ==> (#[trigger] texts@[2 + k])@ == lower_of(command@.keywords[k]),
        decreases command.keywords.len() - i,
    {
        texts.push(lowercase(command.keywords[i].as_str()));
        i = i + 1;
    }
    texts.push(lowercase(command.category.display_name()));
    let r = any_contains(&texts, query);
    proof {
        let q = query@;
        let n = command.keywords@.len() as int;
        if matches_query(command@, q) {
            if seq_contains(lower_of(command@.name), q) {
                assert(seq_contains(texts@[0]@, q));
            } else if seq_contains(lower_of(command@.description), q) {
                assert(seq_contains(texts@[1]@, q));
            } else if seq_contains(lower_of(category_name(command@.category)), q) {
                assert(seq_contains(texts@[2 + n]@, q));
            } else {
                let k = choose|k: int|
                    0 <= k < command@.keywords.len() && seq_contains(
                        lower_of(#[trigger] command@.keywords[k]),
                        q,
                    );
                assert(seq_contains(texts@[2 + k]@, q));
            }
        }
        if r {
            let k = choose|k: int| 0 <= k < texts@.len() && seq_contains(#[trigger] texts@[k]@, q);
            if 2 <= k < 2 + n {
                assert(texts@[2 + (k - 2)]@ == lower_of(command@.keywords[k - 2]));
            }
        }
    }
    r
}

/// The command palette: visibility, input text, catalog, the commands shown and the cursor.
#[derive(Debug)]
pub struct CommandPalette {
    pub visible: bool,
    pub input: String,
    pub commands: Vec<Command>,
    pub filtered_commands: Vec<Command>,
    pub selected_index: usize,
    pub context: CommandContext,
}

impl CommandPalette {
    /// The shown commands are those the catalog keeps for the input and context,
    /// and the cursor is on one of them (or at 0 when there are none).
    pub open spec fn wf(&self) -> bool {
        &&& commands_view(self.filtered_commands@) == filtered(
            commands_view(self.commands@),
            self.context@,
            self.input@,
        )
        &&& (self.filtered_commands@.len() > 0 ==> self.selected_index < self.filtered_commands@.len())
        &&& (self.filtered_commands@.len() == 0 ==> self.selected_index == 0)
    }

    /// A hidden palette with an empty catalog for `context`.
    pub fn new(context: CommandContext) -> (r: Self)
        ensures
            r.wf(),
            !r.visible,
            r.input@.len() == 0,
            r.commands@.len() == 0,
            r.context == context,
    {
        let r = CommandPalette {
            visible: false,
            input: String::new(),
            commands: Vec::new(),
            filtered_commands: Vec::new(),
            selected_index: 0,
            context,
        };
        assert(commands_view(r.filtered_commands@) =~= filtered(
            commands_view(r.commands@),
            r.context@,
            r.input@,
        ));
        r
    }

    /// Recomputes the shown commands and clamps the cursor onto them.
    fn update_filtered_commands(&mut self)
        ensures
            final(self).wf(),
            final(self).visible == old(self).visible,
            final(self).input == old(self).input,
            final(self).commands == old(self).commands,
            final(self).context == old(self).context,
            old(self).selected_index < final(self).filtered_commands@.len() ==> final(self).selected_index
                == old(self).selected_index,
    {
        let ghost cs = commands_view(self.commands@);
        let ghost p = kept_by(self.context@, self.input@);
        let query = lowercase(self.input.as_str());
        let empty = self.input.as_str().is_empty();
        proof {
            assert(empty == (self.input@.len() == 0)) by {
                if self.input@.len() == 0 {
                    assert(self.input@ =~= Seq::<char>::empty());
                }
            }
        }
        let mut out: Vec<Command> = Vec::new();
        let mut i: usize = 0;
        while i < self.commands.len()
            invariant
                cs == commands_view(self.commands@),
                p == kept_by(self.context@, self.input@),
                query@ == lower_of(self.input@),
                empty == (self.input@.len() == 0),
                i <= self.commands@.len(),
                commands_view(out@) == cs.take(i as int).filter(p),
            decreases self.commands.len() - i,
        {
            proof {
                assert(cs.take(i + 1) == cs.take(i as int).push(cs[i as int]));
                cs.take(i as int).lemma_filter_push(cs[i as int], p);
            }
            let c = &self.commands[i];
            if is_command_applicable(c, &self.context) && (empty || command_matches(c, query.as_str())) {
                let ghost before = out@;
                out.push(c.clone());
                assert(commands_view(out@) =~= commands_view(before).push(cs[i as int]));
            }
            i = i + 1;
        }
        assert(cs.take(self.commands@.len() as int) == cs);
        self.filtered_commands = out;
        if self.selected_index >= self.filtered_commands.len() {
            if self.filtered_commands.len() == 0 {
                self.selected_index = 0;
            } else {
                self.selected_index = self.filtered_commands.len() - 1;
            }
        }
    }

    /// Empties the input, puts the cursor at the top and recomputes.
    pub fn reset_input(&mut self)
        ensures
            final(self).wf(),
            final(self).input@.len() == 0,
            final(self).selected_index == 0,
            final(self).visible == old(self).visible,
            final(self).commands == old(self).commands,
            final(self).context == old(self).context,
    {
        self.input = String::new();
        self.selected_index = 0;
        self.update_filtered_commands();
    }

    /// Flips visibility; a palette that opens starts with an empty input.
    pub fn toggle(&mut self)
        requires
            old(self).wf(),
        ensures
            final(self).wf(),
            final(self).visible == !old(self).visible,
            final(self).visible ==> final(self).input@.len() == 0 && final(self).selected_index == 0,
            !final(self).visible ==> final(self).input == old(self).input,
            final(self).commands == old(self).commands,
            final(self).context == old(self).context,
    {
        self.visible = !self.visible;
        if self.visible {
            self.reset_input();
        }
    }

    /// Opens the palette with an empty input.
    pub fn show(&mut self)
        ensures
            final(self).wf(),
            final(self).visible,
            final(self).input@.len() == 0,
            final(self).selected_index == 0,
            final(self).commands == old(self).commands,
            final(self).context == old(self).context,
    {
        self.visible = true;
        self.reset_input();
    }

    /// Closes the palette, discarding the input.
    pub fn close(&mut self)
        ensures
            final(self).wf(),
            !final(self).visible,
            final(self).input@.len() == 0,
            final(self).selected_index == 0,
            final(self).commands == old(self).commands,
            final(self).context == old(self).context,
    {
        self.visible = false;
        self.reset_input();
    }

    /// Replaces the input, puts the cursor at the top and recomputes.
    pub fn update_input(&mut self, input: String)
        ensures
            final(self).wf(),
            final(self).input == input,
            final(self).selected_index == 0,
            final(self).visible == old(self).visible,
            final(self).commands == old(self).commands,
            final(self).context == old(self).context,
    {
        self.input = input;
        self.selected_index = 0;
        self.update_filtered_commands();
    }

    /// Appends a character to the input, puts the cursor at the top and recomputes.
    pub fn add_char(&mut self, c: char)
        ensures
            final(self).wf(),
            final(self).input@ == old(self).input@.push(c),
            final(self).selected_index == 0,
            final(self).visible == old(self).visible,
            final(self).commands == old(self).commands,
            final(self).context == old(self).context,
    {
        push_char(&mut self.input, c);
        self.selected_index = 0;
        self.update_filtered_commands();
    }

    /// Removes the last character of the input (if any), puts the cursor at the
    /// top and recomputes.
    pub fn backspace(&mut self)
        ensures
            final(self).wf(),
            old(self).input@.len() > 0 ==> final(self).input@ == old(self).input@.drop_last(),
            old(self).input@.len() == 0 ==> final(self).input@ == old(self).input@,
            final(self).selected_index == 0,
            final(self).visible == old(self).visible,
            final(self).commands == old(self).commands,
            final(self).context == old(self).context,
    {
        pop_char(&mut self.input);
        self.selected_index = 0;
        self.update_filtered_commands();
    }

    /// Moves the cursor up by one, stopping at the top.
    pub fn select_previous(&mut self)
        requires
            old(self).wf(),
        ensures
            final(self).wf(),
            final(self).selected_index == if old(self).selected_index > 0 {
                (old(self).selected_index - 1) as usize
            } else {
                0
            },
            final(self).visible == old(self).visible,
            final(self).input == old(self).input,
            final(self).commands == old(self).commands,
            final(self).filtered_commands == old(self).filtered_commands,
            final(self).context == old(self).context,
    {
        if self.selected_index > 0 {
            self.selected_index = self.selected_index - 1;
        }
    }

    /// Moves the cursor down by one, stopping at the last shown command.
    pub fn select_next(&mut self)
        requires
            old(self).wf(),
        ensures
            final(self).wf(),
            final(self).selected_index == if old(self).selected_index + 1 < old(
                self,
            ).filtered_commands@.len() {
                (old(self).selected_index + 1) as usize
            } else {
                old(self).selected_index
            },
            final(self).visible == old(self).visible,
            final(self).input == old(self).input,
            final(self).commands == old(self).commands,
            final(self).filtered_commands == old(self).filtered_commands,
            final(self).context == old(self).context,
    {
        let n = self.filtered_commands.len();
        if n > 0 && self.selected_index < n - 1 {
            self.selected_index = self.selected_index + 1;
        }
    }

    /// The command under the cursor, if any command is shown.
    pub fn get_selected_command(&self) -> (r: Option<&Command>)
        requires
            self.wf(),
        ensures
            self.filtered_commands@.len() == 0 ==> r is None,
            self.filtered_commands@.len() > 0 ==> r == Some(
                &self.filtered_commands@[self.selected_index as int],
            ),
    {
        if self.selected_index < self.filtered_commands.len() {
            Some(&self.filtered_commands[self.selected_index])
        } else {
            None
        }
    }

    /// Replaces the context and recomputes.
    pub fn update_context(&mut self, context: CommandContext)
        ensures
            final(self).wf(),
            final(self).context == context,
            final(self).visible == old(self).visible,
            final(self).input == old(self).input,
            final(self).commands == old(self).commands,
    {
        self.context = context;
        self.update_filtered_commands();
    }

    /// Replaces the catalog and recomputes.
    pub fn set_commands(&mut self, commands: Vec<Command>)
        ensures
            final(self).wf(),
            final(self).commands == commands,
            final(self).visible == old(self).visible,
            final(self).input == old(self).input,
            final(self).context == old(self).context,
    {
        self.commands = commands;
        self.update_filtered_commands();
    }

    pub fn filtered_count(&self) -> (r: usize)
        ensures
            r == self.filtered_commands@.len(),
    {
        self.filtered_commands.len()
    }

    pub fn has_commands(&self) -> (r: bool)
        ensures
            r == (self.filtered_commands@.len() > 0),
    {
        self.filtered_commands.len() > 0
    }

    pub fn get_filtered_commands(&self) -> (r: &[Command])
        ensures
            r@ == self.filtered_commands@,
    {
        self.filtered_commands.as_slice()
    }

    pub fn get_input(&self) -> (r: &str)
        ensures
            r@ == self.input@,
    {
        self.input.as_str()
    }

    pub fn get_selected_index(&self) -> (r: usize)
        ensures
            r == self.selected_index,
    {
        self.selected_index
    }

    pub fn is_visible(&self) -> (r: bool)
        ensures
            r == self.visible,
    {
        self.visible
    }
}

} // verus!
