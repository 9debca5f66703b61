//! The dialogue-line model: lines held in memory, lines stored in a save,
//! and the computations that move between the two.

use vstd::prelude::*;

verus! {

/// Who a line belongs to in the dialogue: the persona prompt of a role, a
/// message on the player's side (player input or narration), or a reply.
#[derive(Clone, Copy, Debug, PartialEq, Eq, Structural)]
pub enum LineAttribute {
    System,
    User,
    Assistant,
}

impl LineAttribute {
    /// The name under which the attribute is stored and sent to the front end.
    pub fn as_str(&self) -> (name: &'static str)
        ensures
            name@ == self.name_spec(),
    {
        match self {
            LineAttribute::System => "system",
            LineAttribute::User => "user",
            LineAttribute::Assistant => "assistant",
        }
    }

    pub open spec fn name_spec(&self) -> Seq<char> {
        match self {
            LineAttribute::System => "system"@,
            LineAttribute::User => "user"@,
            LineAttribute::Assistant => "assistant"@,
        }
    }
}

/// A copy of an optional string.
pub fn copy_opt_string(o: &Option<String>) -> (r: Option<String>)
    ensures
        r == *o,
{
    match o {
        Some(s) => Some(s.clone()),
        None => None,
    }
}

/// The characters of an optional string.
pub open spec fn opt_view(o: Option<String>) -> Option<Seq<char>> {
    match o {
        Some(s) => Some(s@),
        None => None,
    }
}

/// Whether two optional strings hold the same text, as `==` on `Option<String>`.
pub fn opt_string_eq(a: &Option<String>, b: &Option<String>) -> (r: bool)
    ensures
        r == (opt_view(*a) == opt_view(*b)),
{
    match (a, b) {
        (Some(x), Some(y)) => *x == *y,
        (None, None) => true,
        _ => false,
    }
}

/// A copy of a list of role ids.
pub fn copy_ids(v: &Vec<i32>) -> (r: Vec<i32>)
    ensures
        r@ == v@,
{
    let mut r: Vec<i32> = Vec::new();
    for i in 0..v.len()
        invariant
            r@ == v@.take(i as int),
    {
        r.push(v[i]);
        assert(r@ =~= v@.take(i + 1));
    }
    assert(v@.take(v.len() as int) =~= v@);
    r
}

/// The content of a dialogue line as held in memory.
pub struct LineBase {
    /// The id of the stored row, once the line has been written to a save.
    pub id: Option<i32>,
    pub content: String,
    pub original_emotion: Option<String>,
    pub predicted_emotion: Option<String>,
    pub tts_content: Option<String>,
    pub action_content: Option<String>,
    pub thinking: Option<String>,
    pub tool_call: Option<String>,
    pub audio_file: Option<String>,
    pub attribute: LineAttribute,
    pub sender_role_id: Option<i32>,
    pub display_name: Option<String>,
}

impl LineBase {
    /// A line with the given content and attribute and every other field empty.
    pub fn new(content: String, attribute: LineAttribute) -> (line: LineBase)
        ensures
            line.content == content,
            line.attribute == attribute,
            line.id is None,
            line.original_emotion is None,
            line.predicted_emotion is None,
            line.tts_content is None,
            line.action_content is None,
            line.thinking is None,
            line.tool_call is None,
            line.audio_file is None,
            line.sender_role_id is None,
            line.display_name is None,
    {
        LineBase {
            id: None,
            content,
            original_emotion: None,
            predicted_emotion: None,
            tts_content: None,
            action_content: None,
            thinking: None,
            tool_call: None,
            audio_file: None,
            attribute,
            sender_role_id: None,
            display_name: None,
        }
    }

    /// A field-by-field copy.
    pub fn duplicate(&self) -> (r: LineBase)
        ensures
            r == *self,
    {
        LineBase {
            id: self.id,
            content: self.content.clone(),
            original_emotion: copy_opt_string(&self.original_emotion),
            predicted_emotion: copy_opt_string(&self.predicted_emotion),
            tts_content: copy_opt_string(&self.tts_content),
            action_content: copy_opt_string(&self.action_content),
            thinking: copy_opt_string(&self.thinking),
            tool_call: copy_opt_string(&self.tool_call),
            audio_file: copy_opt_string(&self.audio_file),
            attribute: self.attribute,
            sender_role_id: self.sender_role_id,
            display_name: copy_opt_string(&self.display_name),
        }
    }
}

/// A dialogue line together with the roles that perceived it (the roles
/// present when it was spoken).
pub struct GameLine {
    pub base: LineBase,
    pub perceived_role_ids: Vec<i32>,
}

impl GameLine {
    /// A line perceived by the given roles.
    pub fn from_base(base: LineBase, perceived_role_ids: Vec<i32>) -> (line: GameLine)
        ensures
            line.base == base,
            line.perceived_role_ids == perceived_role_ids,
    {
        GameLine { base, perceived_role_ids }
    }

    /// The line's attribute.
    pub fn attribute(&self) -> (a: LineAttribute)
        ensures
            a == self.base.attribute,
    {
        self.base.attribute
    }

    /// A field-by-field copy.
    pub fn duplicate(&self) -> (r: GameLine)
        ensures
            r.base == self.base,
            r.perceived_role_ids@ == self.perceived_role_ids@,
    {
        GameLine { base: self.base.duplicate(), perceived_role_ids: copy_ids(&self.perceived_role_ids) }
    }
}

/// A dialogue line as stored in a save: lines of one save form a chain
/// through `parent_line_id`, from the save's last message back to its first.
pub struct LineRecord {
    pub id: i32,
    pub content: String,
    pub original_emotion: Option<String>,
    pub predicted_emotion: Option<String>,
    pub tts_content: Option<String>,
    pub action_content: Option<String>,
    pub thinking: Option<String>,
    pub tool_call: Option<String>,
    pub audio_file: Option<String>,
    pub attribute: LineAttribute,
    pub sender_role_id: Option<i32>,
    pub display_name: Option<String>,
    pub save_id: i32,
    pub parent_line_id: Option<i32>,
}

impl LineRecord {
    /// A field-by-field copy.
    pub fn duplicate(&self) -> (r: LineRecord)
        ensures
            r == *self,
    {
        LineRecord {
            id: self.id,
            content: self.content.clone(),
            original_emotion: copy_opt_string(&self.original_emotion),
            predicted_emotion: copy_opt_string(&self.predicted_emotion),
            tts_content: copy_opt_string(&self.tts_content),
            action_content: copy_opt_string(&self.action_content),
            thinking: copy_opt_string(&self.thinking),
            tool_call: copy_opt_string(&self.tool_call),
            audio_file: copy_opt_string(&self.audio_file),
            attribute: self.attribute,
            sender_role_id: self.sender_role_id,
            display_name: copy_opt_string(&self.display_name),
            save_id: self.save_id,
            parent_line_id: self.parent_line_id,
        }
    }
}

/// One stored perception: the role `role_id` perceived the line `line_id`.
#[derive(Clone, Copy, Debug, PartialEq, Eq, Structural)]
pub struct LinePerception {
    pub line_id: i32,
    pub role_id: i32,
}

} // verus!
