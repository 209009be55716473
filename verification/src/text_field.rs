//! The one text input the menus need. Values live in `HubForms`; the field only
//! edits and renders them, so screens can be rebuilt without losing what was typed.
use vstd::prelude::*;
use crate::hub::HubForms;
use crate::text::{control_char, is_control_char, push_char};

verus! {

/// Most characters a field holds.
pub const FIELD_MAX_CHARS: usize = 64;

#[derive(Clone, Copy, PartialEq, Eq, Debug, Hash, Structural)]
pub enum FieldId {
    Identifier,
    Password,
    Username,
    Email,
    Confirm,
    Search,
}

impl FieldId {
    /// The text of this field.
    pub open spec fn spec_value(self, forms: HubForms) -> String {
        match self {
            FieldId::Identifier => forms.identifier,
            FieldId::Password => forms.password,
            FieldId::Username => forms.username,
            FieldId::Email => forms.email,
            FieldId::Confirm => forms.confirm,
            FieldId::Search => forms.search,
        }
    }

    /// `forms` with this field's text replaced by `value`.
    pub open spec fn spec_with(self, forms: HubForms, value: String) -> HubForms {
        match self {
            FieldId::Identifier => HubForms { identifier: value, ..forms },
            FieldId::Password => HubForms { password: value, ..forms },
            FieldId::Username => HubForms { username: value, ..forms },
            FieldId::Email => HubForms { email: value, ..forms },
            FieldId::Confirm => HubForms { confirm: value, ..forms },
            FieldId::Search => HubForms { search: value, ..forms },
        }
    }

    pub fn value(self, forms: &HubForms) -> (r: &str)
        ensures
            r@ == self.spec_value(*forms)@,
    {
        match self {
            FieldId::Identifier => forms.identifier.as_str(),
            FieldId::Password => forms.password.as_str(),
            FieldId::Username => forms.username.as_str(),
            FieldId::Email => forms.email.as_str(),
            FieldId::Confirm => forms.confirm.as_str(),
            FieldId::Search => forms.search.as_str(),
        }
    }

    pub fn value_mut(self, forms: &mut HubForms) -> (r: &mut String)
        ensures
            *r == self.spec_value(*old(forms)),
            *final(forms) == self.spec_with(*old(forms), *final(r)),
    {
        match self {
            FieldId::Identifier => &mut forms.identifier,
            FieldId::Password => &mut forms.password,
            FieldId::Username => &mut forms.username,
            FieldId::Email => &mut forms.email,
            FieldId::Confirm => &mut forms.confirm,
            FieldId::Search => &mut forms.search,
        }
    }

    /// Password fields show dots in place of their text.
    pub fn masked(self) -> (r: bool)
        ensures
            r == (self == FieldId::Password || self == FieldId::Confirm),
    {
        match self {
            FieldId::Password | FieldId::Confirm => true,
            _ => false,
        }
    }
}

/// `value` after typing `text`: each character that is not a control character
/// is appended while the field has room.
pub open spec fn typed(value: Seq<char>, text: Seq<char>) -> Seq<char>
    decreases text.len(),
{
    if text.len() == 0 {
        value
    } else {
        let before = typed(value, text.drop_last());
        let c = text.last();
        if !is_control_char(c) && before.len() < FIELD_MAX_CHARS {
            before.push(c)
        } else {
            before
        }
    }
}

/// Typing text without control characters into a field with room for all of
/// it appends exactly that text.
pub proof fn lemma_typing_appends(value: Seq<char>, text: Seq<char>)
    requires
        forall|i: int| 0 <= i < text.len() ==> !is_control_char(#[trigger] text[i]),
        value.len() + text.len() <= FIELD_MAX_CHARS,
    ensures
        typed(value, text) == value + text,
    decreases text.len(),
{
    if text.len() > 0 {
        let rest = text.drop_last();
        assert forall|i: int| 0 <= i < rest.len() implies !is_control_char(#[trigger] rest[i]) by {
            assert(rest[i] == text[i]);
        }
        lemma_typing_appends(value, rest);
        assert(!is_control_char(text[text.len() - 1]));
        assert((value + rest).push(text.last()) =~= value + text);
    } else {
        assert(value + text =~= value);
    }
}

/// Types `text` into `value`; tells whether anything was added.
pub fn type_text(value: &mut String, text: &str) -> (edited: bool)
    ensures
        final(value)@ == typed(old(value)@, text@),
        (forall|i: int| 0 <= i < text@.len() ==> !is_control_char(#[trigger] text@[i])) && old(value)@.len()
            + text@.len() <= FIELD_MAX_CHARS ==> final(value)@ == old(value)@ + text@,
        edited == (final(value)@ != old(value)@),
{
    let n = text.unicode_len();
    let start = value.as_str().unicode_len();
    let mut count = start;
    let mut i: usize = 0;
    while i < n
        invariant
            n == text@.len(),
            i <= n,
            count == value@.len(),
            start == old(value)@.len(),
            value@ == typed(old(value)@, text@.subrange(0, i as int)),
            old(value)@.len() <= value@.len(),
            value@.len() == old(value)@.len() ==> value@ == old(value)@,
        decreases n - i,
    {
        let c = text.get_char(i);
        proof {
            let prefix = text@.subrange(0, i + 1);
            assert(prefix.drop_last() =~= text@.subrange(0, i as int));
            assert(prefix.last() == c);
        }
        if !control_char(c) && count < FIELD_MAX_CHARS {
            push_char(value, c);
            count = count + 1;
        }
        i = i + 1;
    }
    proof {
        assert(text@.subrange(0, n as int) =~= text@);
        if (forall|i: int| 0 <= i < text@.len() ==> !is_control_char(#[trigger] text@[i])) && old(value)@.len()
            + text@.len() <= FIELD_MAX_CHARS {
            lemma_typing_appends(old(value)@, text@);
        }
    }
    count != start
}

/// Removes the last character; tells whether there was one.
pub fn backspace(value: &mut String) -> (removed: bool)
    ensures
        removed == (old(value)@.len() > 0),
        final(value)@ == if removed {
            old(value)@.drop_last()
        } else {
            old(value)@
        },
{
    let n = value.as_str().unicode_len();
    if n == 0 {
        return false;
    }
    let shorter = String::from_str(value.as_str().substring_char(0, n - 1));
    *value = shorter;
    assert(value@ =~= old(value)@.drop_last());
    true
}

/// `k` is where `id` first occurs in `order`.
pub open spec fn first_at(order: Seq<FieldId>, id: FieldId, k: int) -> bool {
    0 <= k < order.len() && order[k] == id && forall|j: int| 0 <= j < k ==> order[j] != id
}

/// The index after `k`, wrapping around at `len`.
pub open spec fn wrapped_next(k: int, len: int) -> int {
    if k + 1 == len {
        0
    } else {
        k + 1
    }
}

/// The field after `id` among the fields on screen, wrapping around.
pub fn next_field(order: &Vec<FieldId>, id: FieldId) -> (r: Option<FieldId>)
    ensures
        match r {
            Some(f) => exists|k: int|
                #[trigger] first_at(order@, id, k) && f == order@[wrapped_next(k, order@.len() as int)],
            None => !order@.contains(id),
        },
{
    let mut k: usize = 0;
    while k < order.len()
        invariant
            k <= order@.len(),
            forall|j: int| 0 <= j < k ==> order@[j] != id,
        decreases order@.len() - k,
    {
        if order[k] == id {
            let j = if k + 1 == order.len() {
                0
            } else {
                k + 1
            };
            let next = order[j];
            assert(first_at(order@, id, k as int));
            return Some(next);
        }
        k = k + 1;
    }
    None
}

/// A key pressed while a field has focus.
#[derive(Clone, Debug)]
pub enum FieldKey {
    Backspace,
    Enter,
    Escape,
    Tab,
    /// Any other key, with the text it produces, if any.
    Text(Option<String>),
}

/// What the typing asks the menus to react to.
#[derive(Clone, Copy, Debug, PartialEq, Eq, Structural)]
pub enum FieldEvent {
    Changed(FieldId),
    Submit(FieldId),
}

/// The field's text after one key.
pub open spec fn key_value(value: Seq<char>, key: FieldKey) -> Seq<char> {
    match key {
        FieldKey::Backspace => if value.len() > 0 {
            value.drop_last()
        } else {
            value
        },
        FieldKey::Text(Some(t)) => typed(value, t@),
        _ => value,
    }
}

/// What one key reports: an edit that changed the text, or a submit.
pub open spec fn key_event(value: Seq<char>, key: FieldKey, id: FieldId) -> Option<FieldEvent> {
    match key {
        FieldKey::Backspace => if value.len() > 0 {
            Some(FieldEvent::Changed(id))
        } else {
            None
        },
        FieldKey::Enter => Some(FieldEvent::Submit(id)),
        FieldKey::Text(Some(t)) => if typed(value, t@) != value {
            Some(FieldEvent::Changed(id))
        } else {
            None
        },
        _ => None,
    }
}

/// The field's text after a run of keys.
pub open spec fn keys_value(value: Seq<char>, keys: Seq<FieldKey>) -> Seq<char>
    decreases keys.len(),
{
    if keys.len() == 0 {
        value
    } else {
        key_value(keys_value(value, keys.drop_last()), keys.last())
    }
}

/// What a run of keys reports, in order.
pub open spec fn keys_events(value: Seq<char>, keys: Seq<FieldKey>, id: FieldId) -> Seq<FieldEvent>
    decreases keys.len(),
{
    if keys.len() == 0 {
        Seq::empty()
    } else {
        let prev = keys_events(value, keys.drop_last(), id);
        match key_event(keys_value(value, keys.drop_last()), keys.last(), id) {
            Some(e) => prev.push(e),
            None => prev,
        }
    }
}

/// The field tab moves to from `id`: the next one on screen, wrapping around.
pub open spec fn tab_target(fields: Seq<FieldId>, id: FieldId) -> FieldId {
    fields[wrapped_next(choose|k: int| first_at(fields, id, k), fields.len() as int)]
}

/// The focus after a run of keys typed into `id`.
pub open spec fn keys_focus(focus: Option<FieldId>, keys: Seq<FieldKey>, id: FieldId, fields: Seq<FieldId>) -> Option<
    FieldId,
>
    decreases keys.len(),
{
    if keys.len() == 0 {
        focus
    } else {
        let prev = keys_focus(focus, keys.drop_last(), id, fields);
        match keys.last() {
            FieldKey::Escape => None,
            FieldKey::Tab => Some(tab_target(fields, id)),
            _ => prev,
        }
    }
}

proof fn lemma_first_at_unique(order: Seq<FieldId>, id: FieldId, a: int, b: int)
    requires
        first_at(order, id, a),
        first_at(order, id, b),
    ensures
        a == b,
{
    if a < b {
        assert(order[a] != id);
    } else if b < a {
        assert(order[b] != id);
    }
}

/// Handles the keys pressed in one frame. Nothing happens without a focused
/// field; focus is dropped when the focused field is not on screen. All keys of
/// the frame go to the field focused at its start: backspace and text edit it,
/// enter submits it, escape drops the focus and tab moves it to the next field.
pub fn typing(
    focus: &mut Option<FieldId>,
    forms: &mut HubForms,
    fields: &Vec<FieldId>,
    keys: &Vec<FieldKey>,
) -> (events: Vec<FieldEvent>)
    ensures
        *old(focus) is None ==> *final(focus) is None && *final(forms) == *old(forms) && events@.len() == 0,
        (*old(focus) matches Some(id) && !fields@.contains(id)) ==> *final(focus) is None && *final(forms)
            == *old(forms) && events@.len() == 0,
        match *old(focus) {
            Some(id) => fields@.contains(id) ==> {
                &&& *final(forms) == id.spec_with(*old(forms), id.spec_value(*final(forms)))
                &&& id.spec_value(*final(forms))@ == keys_value(id.spec_value(*old(forms))@, keys@)
                &&& events@ == keys_events(id.spec_value(*old(forms))@, keys@, id)
                &&& *final(focus) == keys_focus(Some(id), keys@, id, fields@)
            },
            None => true,
        },
{
    let id = match *focus {
        Some(id) => id,
        None => {
            return Vec::new();
        },
    };
    let ghost start = id.spec_value(*forms)@;
    let mut on_screen = false;
    let mut k: usize = 0;
    while k < fields.len()
        invariant
            k <= fields@.len(),
            on_screen == (exists|j: int| 0 <= j < k && fields@[j] == id),
        decreases fields@.len() - k,
    {
        if fields[k] == id {
            on_screen = true;
        }
        k = k + 1;
    }
    if !on_screen {
        *focus = None;
        proof {
            assert forall|j: int| 0 <= j < fields@.len() implies fields@[j] != id by {}
        }
        return Vec::new();
    }
    proof {
        let j = choose|j: int| 0 <= j < k && fields@[j] == id;
        assert(fields@.contains(id));
    }
    let mut events: Vec<FieldEvent> = Vec::new();
    let mut i: usize = 0;
    assert(keys@.subrange(0, 0) =~= Seq::<FieldKey>::empty());
    while i < keys.len()
        invariant
            i <= keys@.len(),
            fields@.contains(id),
            *forms == id.spec_with(*old(forms), id.spec_value(*forms)),
            start == id.spec_value(*old(forms))@,
            id.spec_value(*forms)@ == keys_value(start, keys@.subrange(0, i as int)),
            events@ == keys_events(start, keys@.subrange(0, i as int), id),
            *focus == keys_focus(Some(id), keys@.subrange(0, i as int), id, fields@),
        decreases keys@.len() - i,
    {
        let ghost done = keys@.subrange(0, i as int);
        let ghost upto = keys@.subrange(0, i + 1);
        proof {
            assert(upto.drop_last() =~= done);
            assert(upto.last() == keys@[i as int]);
        }
        match &keys[i] {
            FieldKey::Backspace => {
                if backspace(id.value_mut(forms)) {
                    events.push(FieldEvent::Changed(id));
                }
            },
            FieldKey::Enter => {
                events.push(FieldEvent::Submit(id));
            },
            FieldKey::Escape => {
                *focus = None;
            },
            FieldKey::Tab => {
                match next_field(fields, id) {
                    Some(next) => {
                        proof {
                            let k = choose|k: int| #[trigger] first_at(fields@, id, k) && next == fields@[wrapped_next(
                                k,
                                fields@.len() as int,
                            )];
                            lemma_first_at_unique(fields@, id, k, choose|k: int| first_at(fields@, id, k));
                        }
                        *focus = Some(next);
                    },
                    None => {},
                }
            },
            FieldKey::Text(text) => {
                match text {
                    Some(t) => {
                        if type_text(id.value_mut(forms), t.as_str()) {
                            events.push(FieldEvent::Changed(id));
                        }
                    },
                    None => {},
                }
            },
        }
        i = i + 1;
    }
    proof {
        assert(keys@.subrange(0, keys@.len() as int) =~= keys@);
    }
    events
}

/// What a field shows: its text (dots for a password) followed by the caret
/// while focused and the caret blinks on; an empty field shows the caret when
/// focused, its placeholder otherwise.
pub open spec fn spec_shown(value: Seq<char>, placeholder: Seq<char>, focused: bool, blink: bool, masked: bool) -> Seq<
    char,
> {
    if value.len() == 0 {
        if focused && blink {
            seq!['|']
        } else if focused {
            Seq::empty()
        } else {
            placeholder
        }
    } else {
        let body = if masked {
            Seq::new(value.len(), |i: int| '•')
        } else {
            value
        };
        if focused && blink {
            body.push('|')
        } else {
            body
        }
    }
}

pub fn shown_text(value: &str, placeholder: &str, focused: bool, blink: bool, masked: bool) -> (r: String)
    ensures
        r@ == spec_shown(value@, placeholder@, focused, blink, masked),
{
    let n = value.unicode_len();
    if n == 0 {
        if focused && blink {
            let mut r = String::new();
            push_char(&mut r, '|');
            assert(r@ =~= seq!['|']);
            return r;
        } else if focused {
            return String::new();
        } else {
            return String::from_str(placeholder);
        }
    }
    let mut body = String::new();
    if masked {
        let mut i: usize = 0;
        while i < n
            invariant
                i <= n,
                body@ =~= Seq::new(i as nat, |k: int| '•'),
            decreases n - i,
        {
            push_char(&mut body, '•');
            i = i + 1;
        }
    } else {
        body = String::from_str(value);
    }
    if focused && blink {
        push_char(&mut body, '|');
    }
    body
}

} // verus!
