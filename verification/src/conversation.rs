//! The conversation and its four turn shapes.

use vstd::prelude::*;

verus! {

/// The speaker of one turn.
#[derive(Debug, Clone, Copy, PartialEq, Eq, Structural)]
pub enum ConversationRole {
    User,
    Assistant,
    System,
    Function,
    Tool,
}

/// The lowercase name of a role, as it appears on the wire.
pub open spec fn role_str(r: ConversationRole) -> Seq<char> {
    match r {
        ConversationRole::User => "user"@,
        ConversationRole::Assistant => "assistant"@,
        ConversationRole::System => "system"@,
        ConversationRole::Function => "function"@,
        ConversationRole::Tool => "tool"@,
    }
}

/// The role named by a lowercase string, if any.
pub open spec fn parse_role(s: Seq<char>) -> Option<ConversationRole> {
    if s == "user"@ {
        Some(ConversationRole::User)
    } else if s == "assistant"@ {
        Some(ConversationRole::Assistant)
    } else if s == "system"@ {
        Some(ConversationRole::System)
    } else if s == "function"@ {
        Some(ConversationRole::Function)
    } else if s == "tool"@ {
        Some(ConversationRole::Tool)
    } else {
        None
    }
}

/// Parsing the printed name of a role gives the role back.
pub proof fn lemma_role_str_parse(r: ConversationRole)
    ensures
        parse_role(role_str(r)) == Some(r),
{
    reveal_strlit("user");
    reveal_strlit("assistant");
    reveal_strlit("system");
    reveal_strlit("function");
    reveal_strlit("tool");
    assert("user"@.len() == 4);
    assert("assistant"@.len() == 9);
    assert("system"@.len() == 6);
    assert("function"@.len() == 8);
    assert("tool"@.len() == 4);
    assert("tool"@[0] == 't' && "user"@[0] == 'u');
}

impl ConversationRole {
    /// The lowercase name of this role.
    pub fn to_string(&self) -> (r: String)
        ensures
            r@ == role_str(*self),
    {
        match self {
            ConversationRole::User => "user".to_owned(),
            ConversationRole::Assistant => "assistant".to_owned(),
            ConversationRole::System => "system".to_owned(),
            ConversationRole::Function => "function".to_owned(),
            ConversationRole::Tool => "tool".to_owned(),
        }
    }

    /// The role named by `s`, if `s` is the lowercase name of one.
    pub fn from_name(s: &str) -> (r: Option<ConversationRole>)
        ensures
            r == parse_role(s@),
    {
        if crate::strutil::str_eq(s, "user") {
            Some(ConversationRole::User)
        } else if crate::strutil::str_eq(s, "assistant") {
            Some(ConversationRole::Assistant)
        } else if crate::strutil::str_eq(s, "system") {
            Some(ConversationRole::System)
        } else if crate::strutil::str_eq(s, "function") {
            Some(ConversationRole::Function)
        } else if crate::strutil::str_eq(s, "tool") {
            Some(ConversationRole::Tool)
        } else {
            None
        }
    }
}

/// The model of an optional string.
pub open spec fn opt_str_view(o: Option<String>) -> Option<Seq<char>> {
    match o {
        Some(s) => Some(s@),
        None => None,
    }
}

/// A basic turn: a role and plain text content.
#[derive(Debug)]
pub struct Turn {
    pub role: ConversationRole,
    pub content: String,
}

/// The model of a basic turn.
pub struct TurnV {
    pub role: ConversationRole,
    pub content: Seq<char>,
}

impl View for Turn {
    type V = TurnV;

    open spec fn view(&self) -> TurnV {
        TurnV { role: self.role, content: self.content@ }
    }
}

impl Clone for Turn {
    fn clone(&self) -> (r: Self)
        ensures
            r@ == self@,
    {
        Turn { role: self.role, content: self.content.clone() }
    }
}

/// The address of an image, with an optional detail hint.
#[derive(Debug)]
pub struct ImageUrl {
    pub url: String,
    pub detail: Option<String>,
}

/// The model of an image address.
pub struct ImageUrlV {
    pub url: Seq<char>,
    pub detail: Option<Seq<char>>,
}

impl View for ImageUrl {
    type V = ImageUrlV;

    open spec fn view(&self) -> ImageUrlV {
        ImageUrlV { url: self.url@, detail: opt_str_view(self.detail) }
    }
}

impl Clone for ImageUrl {
    fn clone(&self) -> (r: Self)
        ensures
            r@ == self@,
    {
        ImageUrl {
            url: self.url.clone(),
            detail: match &self.detail {
                Some(d) => Some(d.clone()),
                None => None,
            },
        }
    }
}

/// The payload of one content entry: either text or an image.
#[derive(Debug)]
pub enum ContentEntryData {
    Text { text: String },
    Image { image_url: ImageUrl },
}

/// The model of a content entry payload.
pub enum ContentEntryDataV {
    Text { text: Seq<char> },
    Image { image_url: ImageUrlV },
}

impl View for ContentEntryData {
    type V = ContentEntryDataV;

    open spec fn view(&self) -> ContentEntryDataV {
        match self {
            ContentEntryData::Text { text } => ContentEntryDataV::Text { text: text@ },
            ContentEntryData::Image { image_url } => ContentEntryDataV::Image {
                image_url: image_url@,
            },
        }
    }
}

impl Clone for ContentEntryData {
    fn clone(&self) -> (r: Self)
        ensures
            r@ == self@,
    {
        match self {
            ContentEntryData::Text { text } => ContentEntryData::Text { text: text.clone() },
            ContentEntryData::Image { image_url } => ContentEntryData::Image {
                image_url: image_url.clone(),
            },
        }
    }
}

/// One entry in the content list of a content turn. `entry_type` is the
/// informational `type` string of the wire form; decoders never rely on it.
#[derive(Debug)]
pub struct ContentEntry {
    pub entry_type: String,
    pub data: ContentEntryData,
}

/// The model of a content entry.
pub struct ContentEntryV {
    pub entry_type: Seq<char>,
    pub data: ContentEntryDataV,
}

impl View for ContentEntry {
    type V = ContentEntryV;

    open spec fn view(&self) -> ContentEntryV {
        ContentEntryV { entry_type: self.entry_type@, data: self.data@ }
    }
}

impl Clone for ContentEntry {
    fn clone(&self) -> (r: Self)
        ensures
            r@ == self@,
    {
        ContentEntry { entry_type: self.entry_type.clone(), data: self.data.clone() }
    }
}

/// A content turn: a role and an ordered list of content entries.
#[derive(Debug)]
pub struct ContentTurn {
    pub role: ConversationRole,
    pub content: Vec<ContentEntry>,
}

/// The model of a content turn.
pub struct ContentTurnV {
    pub role: ConversationRole,
    pub content: Seq<ContentEntryV>,
}

impl View for ContentTurn {
    type V = ContentTurnV;

    open spec fn view(&self) -> ContentTurnV {
        ContentTurnV {
            role: self.role,
            content: self.content@.map_values(|e: ContentEntry| e@),
        }
    }
}

impl Clone for ContentTurn {
    fn clone(&self) -> (r: Self)
        ensures
            r@ == self@,
    {
        let mut entries: Vec<ContentEntry> = Vec::new();
        let mut i: usize = 0;
        while i < self.content.len()
            invariant
                i <= self.content.len(),
                entries@.len() == i,
                forall|k: int| 0 <= k < i ==> entries@[k]@ == self.content@[k]@,
            decreases self.content.len() - i,
        {
            entries.push(self.content[i].clone());
            i += 1;
        }
        let r = ContentTurn { role: self.role, content: entries };
        proof {
            assert(r@.content =~= self@.content);
        }
        r
    }
}

/// One function invocation requested by the model.
#[derive(Debug)]
pub struct FunctionCall {
    pub name: String,
    pub arguments: String,
}

/// The model of a function invocation.
pub struct FunctionCallV {
    pub name: Seq<char>,
    pub arguments: Seq<char>,
}

impl View for FunctionCall {
    type V = FunctionCallV;

    open spec fn view(&self) -> FunctionCallV {
        FunctionCallV { name: self.name@, arguments: self.arguments@ }
    }
}

impl Clone for FunctionCall {
    fn clone(&self) -> (r: Self)
        ensures
            r@ == self@,
    {
        FunctionCall { name: self.name.clone(), arguments: self.arguments.clone() }
    }
}

/// One tool invocation: an id, a call kind and a function call.
/// `call_type` is the wire field named `type`.
#[derive(Debug)]
pub struct ToolCall {
    pub id: String,
    pub call_type: String,
    pub function: FunctionCall,
}

/// The model of a tool invocation.
pub struct ToolCallV {
    pub id: Seq<char>,
    pub call_type: Seq<char>,
    pub function: FunctionCallV,
}

impl View for ToolCall {
    type V = ToolCallV;

    open spec fn view(&self) -> ToolCallV {
        ToolCallV { id: self.id@, call_type: self.call_type@, function: self.function@ }
    }
}

impl Clone for ToolCall {
    fn clone(&self) -> (r: Self)
        ensures
            r@ == self@,
    {
        ToolCall {
            id: self.id.clone(),
            call_type: self.call_type.clone(),
            function: self.function.clone(),
        }
    }
}

/// One turn of a conversation: exactly one of four mutually exclusive
/// shapes, distinguishable on the wire by which fields are present.
#[derive(Debug)]
pub enum TurnType {
    Basic(Turn),
    Content(ContentTurn),
    ToolOutput { role: ConversationRole, content: Option<String>, tool_call_id: String },
    ToolCalls { role: ConversationRole, content: Option<String>, tool_calls: Vec<ToolCall> },
}

/// The model of a turn.
pub enum TurnTypeV {
    Basic(TurnV),
    Content(ContentTurnV),
    ToolOutput { role: ConversationRole, content: Option<Seq<char>>, tool_call_id: Seq<char> },
    ToolCalls { role: ConversationRole, content: Option<Seq<char>>, tool_calls: Seq<ToolCallV> },
}

impl View for TurnType {
    type V = TurnTypeV;

    open spec fn view(&self) -> TurnTypeV {
        match self {
            TurnType::Basic(t) => TurnTypeV::Basic(t@),
            TurnType::Content(t) => TurnTypeV::Content(t@),
            TurnType::ToolOutput { role, content, tool_call_id } => TurnTypeV::ToolOutput {
                role: *role,
                content: opt_str_view(*content),
                tool_call_id: tool_call_id@,
            },
            TurnType::ToolCalls { role, content, tool_calls } => TurnTypeV::ToolCalls {
                role: *role,
                content: opt_str_view(*content),
                tool_calls: tool_calls@.map_values(|c: ToolCall| c@),
            },
        }
    }
}

impl Clone for TurnType {
    fn clone(&self) -> (r: Self)
        ensures
            r@ == self@,
    {
        match self {
            TurnType::Basic(t) => TurnType::Basic(t.clone()),
            TurnType::Content(t) => TurnType::Content(t.clone()),
            TurnType::ToolOutput { role, content, tool_call_id } => TurnType::ToolOutput {
                role: *role,
                content: match content {
                    Some(c) => Some(c.clone()),
                    None => None,
                },
                tool_call_id: tool_call_id.clone(),
            },
            TurnType::ToolCalls { role, content, tool_calls } => {
                let mut calls: Vec<ToolCall> = Vec::new();
                let mut i: usize = 0;
                while i < tool_calls.len()
                    invariant
                        i <= tool_calls.len(),
                        calls@.len() == i,
                        forall|k: int| 0 <= k < i ==> calls@[k]@ == tool_calls@[k]@,
                    decreases tool_calls.len() - i,
                {
                    calls.push(tool_calls[i].clone());
                    i += 1;
                }
                let r = TurnType::ToolCalls {
                    role: *role,
                    content: match content {
                        Some(c) => Some(c.clone()),
                        None => None,
                    },
                    tool_calls: calls,
                };
                proof {
                    assert(calls@.map_values(|c: ToolCall| c@) =~= tool_calls@.map_values(
                        |c: ToolCall| c@,
                    ));
                }
                r
            },
        }
    }
}

/// Whether a turn is a content turn that carries at least one image entry.
pub open spec fn spec_is_vision_turn(t: TurnTypeV) -> bool {
    match t {
        TurnTypeV::Content(ct) => exists|i: int|
            0 <= i < ct.content.len() && ct.content[i].data is Image,
        _ => false,
    }
}

/// An ordered sequence of turns, append-only from the caller's side.
#[derive(Debug)]
pub struct Conversation {
    pub turns: Vec<TurnType>,
}

impl View for Conversation {
    type V = Seq<TurnTypeV>;

    open spec fn view(&self) -> Seq<TurnTypeV> {
        self.turns@.map_values(|t: TurnType| t@)
    }
}

impl Conversation {
    /// An empty conversation.
    pub fn new() -> (r: Conversation)
        ensures
            r@ == Seq::<TurnTypeV>::empty(),
    {
        let r = Conversation { turns: Vec::new() };
        proof {
            assert(r@ =~= Seq::<TurnTypeV>::empty());
        }
        r
    }

    /// A conversation made of the given turns, in order.
    pub fn with_turns(turns: Vec<TurnType>) -> (r: Conversation)
        ensures
            r@ == turns@.map_values(|t: TurnType| t@),
    {
        Conversation { turns }
    }

    /// Appends one turn at the end.
    pub fn add_turn(&mut self, turn: TurnType)
        ensures
            final(self)@ == old(self)@.push(turn@),
    {
        self.turns.push(turn);
        proof {
            assert(self@ =~= old(self)@.push(self.turns@.last()@));
        }
    }

    /// True iff the final turn is a content turn with at least one image
    /// entry; false on an empty conversation and on every other final shape.
    pub fn is_last_turn_vision_query(&self) -> (r: bool)
        ensures
            r == (self@.len() > 0 && spec_is_vision_turn(self@.last())),
    {
        if self.turns.len() == 0 {
            return false;
        }
        match &self.turns[self.turns.len() - 1] {
            TurnType::Content(ct) => {
                proof {
                    assert(self@.last() == self.turns@[self.turns@.len() - 1]@);
                }
                let mut i: usize = 0;
                while i < ct.content.len()
                    invariant
                        i <= ct.content.len(),
                        self@.len() > 0,
                        self@.last() is Content,
                        self@.last()->Content_0.content == ct.content@.map_values(
                            |e: ContentEntry| e@,
                        ),
                        forall|k: int| 0 <= k < i ==> !(ct.content@[k]@.data is Image),
                    decreases ct.content.len() - i,
                {
                    if matches!(&ct.content[i].data, ContentEntryData::Image { .. }) {
                        proof {
                            let ghost es = self@.last()->Content_0.content;
                            assert(es[i as int] == ct.content@[i as int]@);
                            assert(es[i as int].data is Image);
                        }
                        return true;
                    }
                    i += 1;
                }
                proof {
                    let ghost es = self@.last()->Content_0.content;
                    assert(forall|k: int|
                        0 <= k < es.len() ==> es[k] == ct.content@[k]@ && !(es[k].data is Image));
                }
                false
            },
            _ => false,
        }
    }

    /// The number of turns.
    pub fn len(&self) -> (r: usize)
        ensures
            r == self@.len(),
    {
        self.turns.len()
    }

    /// Whether the conversation has no turns.
    pub fn is_empty(&self) -> (r: bool)
        ensures
            r == (self@.len() == 0),
    {
        self.turns.is_empty()
    }
}

impl Default for Conversation {
    /// An empty conversation.
    fn default() -> (r: Conversation)
        ensures
            r@ == Seq::<TurnTypeV>::empty(),
    {
        Conversation::new()
    }
}

impl Clone for Conversation {
    fn clone(&self) -> (r: Self)
        ensures
            r@ == self@,
    {
        let mut turns: Vec<TurnType> = Vec::new();
        let mut i: usize = 0;
        while i < self.turns.len()
            invariant
                i <= self.turns.len(),
                turns@.len() == i,
                forall|k: int| 0 <= k < i ==> turns@[k]@ == self.turns@[k]@,
            decreases self.turns.len() - i,
        {
            turns.push(self.turns[i].clone());
            i += 1;
        }
        let r = Conversation { turns };
        proof {
            assert(r@ =~= self@);
        }
        r
    }
}

} // verus!
