use vstd::prelude::*;

use crate::form::{all_filled, initial_model, step, values_of, Field, FormModel, InputMode, Key, Outcome};
use crate::template::document;

verus! {

/// The state after the keys, one after another.
pub open spec fn run(m: FormModel, keys: Seq<Key>) -> FormModel
    decreases keys.len(),
{
    if keys.len() == 0 {
        m
    } else {
        step(run(m, keys.drop_last()), keys.last()).0
    }
}

/// The key that types `c`.
pub open spec fn char_key(c: char) -> Key {
    Key::Char(c)
}

/// The keys that type the characters of `s`.
pub open spec fn typed_keys(s: Seq<char>) -> Seq<Key>
    decreases s.len(),
{
    if s.len() == 0 {
        Seq::empty()
    } else {
        typed_keys(s.drop_last()).push(char_key(s.last()))
    }
}

/// A key that only changes the edit buffer while editing.
pub open spec fn is_edit_key(k: Key) -> bool {
    match k {
        Key::Char(_) | Key::Backspace => true,
        _ => false,
    }
}

/// The active field is one of the form's fields.
pub open spec fn index_in_range(m: FormModel) -> bool {
    m.current < m.values.len()
}

/// Running keys one batch after another is running them all at once.
pub proof fn lemma_run_append(m: FormModel, a: Seq<Key>, b: Seq<Key>)
    ensures
        run(m, a + b) == run(run(m, a), b),
    decreases b.len(),
{
    if b.len() == 0 {
        assert(a + b =~= a);
    } else {
        assert((a + b).drop_last() =~= a + b.drop_last());
        lemma_run_append(m, a, b.drop_last());
    }
}

/// Running a single key is taking one step.
pub proof fn lemma_run_one(m: FormModel, key: Key)
    ensures
        run(m, seq![key]) == step(m, key).0,
{
    assert(seq![key].drop_last() =~= Seq::<Key>::empty());
    assert(run(m, Seq::<Key>::empty()) == m);
}

/// A key keeps the number of fields and the active field in range.
pub proof fn lemma_step_keeps_index_in_range(m: FormModel, key: Key)
    requires
        index_in_range(m),
    ensures
        step(m, key).0.values.len() == m.values.len(),
        index_in_range(step(m, key).0),
{
}

/// Whatever keys come, the active field of a form with at least one field
/// stays within range.
pub proof fn lemma_reachable_index_in_range(n: nat, keys: Seq<Key>)
    requires
        n > 0,
    ensures
        run(initial_model(n), keys).values.len() == n,
        run(initial_model(n), keys).current < n,
    decreases keys.len(),
{
    if keys.len() > 0 {
        lemma_reachable_index_in_range(n, keys.drop_last());
        lemma_step_keeps_index_in_range(run(initial_model(n), keys.drop_last()), keys.last());
    }
}

/// Moving down from the last field, or up from the first, changes nothing.
pub proof fn lemma_boundary_moves_are_noops(m: FormModel)
    requires
        m.mode == InputMode::Navigation,
        index_in_range(m),
    ensures
        m.current + 1 == m.values.len() ==> step(m, Key::Down) == (m, Outcome::Continue),
        m.current == 0 ==> step(m, Key::Up) == (m, Outcome::Continue),
{
}

/// While editing, typing and erasing change the edit buffer alone.
pub proof fn lemma_edit_keys_touch_buffer_only(e: FormModel, typed: Seq<Key>)
    requires
        e.mode == InputMode::Editing,
        forall|j: int| 0 <= j < typed.len() ==> is_edit_key(#[trigger] typed[j]),
    ensures
        run(e, typed) == (FormModel { buffer: run(e, typed).buffer, ..e }),
    decreases typed.len(),
{
    if typed.len() > 0 {
        lemma_edit_keys_touch_buffer_only(e, typed.drop_last());
        assert(is_edit_key(typed[typed.len() - 1]));
    }
}

/// While editing, typing `s` appends `s` to the edit buffer and changes
/// nothing else.
pub proof fn lemma_typing_appends(e: FormModel, s: Seq<char>)
    requires
        e.mode == InputMode::Editing,
    ensures
        run(e, typed_keys(s)) == (FormModel { buffer: e.buffer + s, ..e }),
    decreases s.len(),
{
    if s.len() == 0 {
        assert(e.buffer + s =~= e.buffer);
    } else {
        assert(typed_keys(s).drop_last() =~= typed_keys(s.drop_last()));
        lemma_typing_appends(e, s.drop_last());
        assert(e.buffer + s =~= (e.buffer + s.drop_last()).push(s.last()));
    }
}

/// Entering editing, typing or erasing anything, then cancelling returns to
/// navigation on the same field with every committed value as it was.
pub proof fn lemma_cancel_keeps_values(m: FormModel, typed: Seq<Key>)
    requires
        m.mode == InputMode::Navigation,
        index_in_range(m),
        forall|j: int| 0 <= j < typed.len() ==> is_edit_key(#[trigger] typed[j]),
    ensures
        run(m, seq![Key::Enter] + typed + seq![Key::Esc]).values == m.values,
        run(m, seq![Key::Enter] + typed + seq![Key::Esc]).current == m.current,
        run(m, seq![Key::Enter] + typed + seq![Key::Esc]).mode == InputMode::Navigation,
{
    let e = step(m, Key::Enter).0;
    lemma_run_one(m, Key::Enter);
    lemma_run_append(m, seq![Key::Enter], typed);
    lemma_edit_keys_touch_buffer_only(e, typed);
    lemma_run_append(m, seq![Key::Enter] + typed, seq![Key::Esc]);
    lemma_run_one(run(m, seq![Key::Enter] + typed), Key::Esc);
}

/// Entering editing on field `i`, typing `s` and confirming appends `s` to
/// the value that the field held, so that an empty field then holds exactly
/// `s`; the other values stay, and the next field becomes active unless `i`
/// is the last one, where the form returns to navigation.
pub proof fn lemma_type_and_confirm(m: FormModel, s: Seq<char>)
    requires
        m.mode == InputMode::Navigation,
        index_in_range(m),
    ensures
        ({
            let r = run(m, seq![Key::Enter] + typed_keys(s) + seq![Key::Enter]);
            let i = m.current as int;
            &&& r.values == m.values.update(i, m.values[i] + s)
            &&& r.values[i] == m.values[i] + s
            &&& m.values[i].len() == 0 ==> r.values[i] == s
            &&& r.current == if i + 1 < m.values.len() { (i + 1) as nat } else { m.current }
            &&& i + 1 == m.values.len() ==> r.mode == InputMode::Navigation
        }),
{
    let e = step(m, Key::Enter).0;
    lemma_run_one(m, Key::Enter);
    lemma_run_append(m, seq![Key::Enter], typed_keys(s));
    lemma_typing_appends(e, s);
    lemma_run_append(m, seq![Key::Enter] + typed_keys(s), seq![Key::Enter]);
    lemma_run_one(run(m, seq![Key::Enter] + typed_keys(s)), Key::Enter);
    assert(Seq::<char>::empty() + s =~= s);
}

/// Submitting from navigation completes exactly when every field has a
/// value, whichever license is selected, and never changes the state.
pub proof fn lemma_completion_gate(m: FormModel)
    requires
        m.mode == InputMode::Navigation,
    ensures
        step(m, Key::Tab).0 == m,
        step(m, Key::Tab).1 == if all_filled(m.values) { Outcome::Complete } else { Outcome::Continue },
        forall|l: nat| #[trigger] step(FormModel { license: l, ..m }, Key::Tab).1 == step(m, Key::Tab).1,
{
}

/// The document depends on the fields' values, the license and the pass
/// alone: two renders of the same values give the same text.
pub proof fn lemma_render_deterministic(
    a: Seq<Field>,
    b: Seq<Field>,
    license: Seq<char>,
    final_pass: bool,
)
    requires
        values_of(a) == values_of(b),
    ensures
        document(values_of(a), license, final_pass) == document(values_of(b), license, final_pass),
{
}

} // verus!
