//! Prompt construction: a flat-text prompt and a structured role-tagged
//! prompt, built from the same append-only sequence of additions. Priming
//! maps to the system role, problem to user, solution to assistant.
//!
//! Both renderings preserve the order in which content was added; the
//! structured rendering carries no trailing separator. Persisting a
//! rendering is I/O and lives outside this crate.

use vstd::prelude::*;

verus! {

/// What one flat-text addition does: appends the content and a newline.
pub open spec fn flat_add(text: Seq<char>, content: Seq<char>) -> Seq<char> {
    text + content + seq!['\n']
}

/// A plain-text prompt: contents concatenated in order, one per line,
/// with no role markers.
pub struct TextPrompt {
    text: String,
}

impl View for TextPrompt {
    type V = Seq<char>;

    closed spec fn view(&self) -> Seq<char> {
        self.text@
    }
}

impl TextPrompt {
    /// An empty flat-text prompt.
    pub fn new() -> (p: TextPrompt)
        ensures
            p@ == Seq::<char>::empty(),
    {
        TextPrompt { text: String::new() }
    }

    /// The flat-text rendering built so far.
    pub fn get(&self) -> (r: String)
        ensures
            r@ == self@,
    {
        self.text.clone()
    }

    fn add_line(&mut self, content: &str)
        ensures
            final(self)@ == flat_add(old(self)@, content@),
    {
        self.text.append(content);
        proof {
            reveal_strlit("\n");
        }
        self.text.append("\n");
        proof {
            assert(self.text@ =~= flat_add(old(self)@, content@));
        }
    }

    /// Appends priming content as one line.
    pub fn add_priming(&mut self, content: &str)
        ensures
            final(self)@ == flat_add(old(self)@, content@),
    {
        self.add_line(content);
    }

    /// Appends problem content as one line.
    pub fn add_problem(&mut self, content: &str)
        ensures
            final(self)@ == flat_add(old(self)@, content@),
    {
        self.add_line(content);
    }

    /// Appends solution content as one line.
    pub fn add_solution(&mut self, content: &str)
        ensures
            final(self)@ == flat_add(old(self)@, content@),
    {
        self.add_line(content);
    }
}

/// One role-tagged segment of a structured prompt.
pub struct PromptPiece {
    pub role: String,
    pub content: String,
}

impl View for PromptPiece {
    type V = (Seq<char>, Seq<char>);

    open spec fn view(&self) -> (Seq<char>, Seq<char>) {
        (self.role@, self.content@)
    }
}

/// The role-and-content pairs of a piece sequence.
pub open spec fn pieces_view(ps: Seq<PromptPiece>) -> Seq<(Seq<char>, Seq<char>)> {
    Seq::new(ps.len(), |i: int| ps[i]@)
}

/// One record of the structured rendering.
pub open spec fn piece_record(role: Seq<char>, content: Seq<char>) -> Seq<char> {
    "{ \"role\": \""@ + role + "\", \"content\": \""@ + content + "\" }"@
}

/// The structured rendering: the records in order, separated by a comma
/// and newline, with no separator after the last record.
pub open spec fn structured_render(ps: Seq<(Seq<char>, Seq<char>)>) -> Seq<char>
    decreases ps.len(),
{
    if ps.len() == 0 {
        Seq::empty()
    } else if ps.len() == 1 {
        piece_record(ps[0].0, ps[0].1)
    } else {
        piece_record(ps[0].0, ps[0].1) + ",\n"@ + structured_render(ps.drop_first())
    }
}

/// A structured, role-tagged prompt, suitable for chat-style transmission.
pub struct OpenAIPrompt {
    prompts: Vec<PromptPiece>,
}

impl View for OpenAIPrompt {
    type V = Seq<(Seq<char>, Seq<char>)>;

    closed spec fn view(&self) -> Seq<(Seq<char>, Seq<char>)> {
        pieces_view(self.prompts@)
    }
}

fn render_piece(p: &PromptPiece) -> (r: String)
    ensures
        r@ == piece_record(p@.0, p@.1),
{
    let mut s = "{ \"role\": \"".to_owned();
    s.append(p.role.as_str());
    s.append("\", \"content\": \"");
    s.append(p.content.as_str());
    s.append("\" }");
    proof {
        assert(s@ =~= piece_record(p@.0, p@.1));
    }
    s
}

fn render_from(ps: &Vec<PromptPiece>, start: usize) -> (r: String)
    requires
        start <= ps.len(),
    ensures
        r@ == structured_render(pieces_view(ps@).skip(start as int)),
    decreases ps.len() - start,
{
    if start == ps.len() {
        String::new()
    } else if start + 1 == ps.len() {
        let r = render_piece(&ps[start]);
        proof {
            assert(pieces_view(ps@).skip(start as int).len() == 1);
        }
        r
    } else {
        let mut r = render_piece(&ps[start]);
        proof {
            reveal_strlit(",\n");
        }
        r.append(",\n");
        let tail = render_from(ps, start + 1);
        r.append(tail.as_str());
        proof {
            assert(pieces_view(ps@).skip(start as int).drop_first() =~= pieces_view(ps@).skip(
                start as int + 1,
            ));
            assert(r@ =~= structured_render(pieces_view(ps@).skip(start as int)));
        }
        r
    }
}

impl OpenAIPrompt {
    /// An empty structured prompt.
    pub fn new() -> (p: OpenAIPrompt)
        ensures
            p@ == Seq::<(Seq<char>, Seq<char>)>::empty(),
    {
        let p = OpenAIPrompt { prompts: Vec::new() };
        proof {
            assert(p@ =~= Seq::<(Seq<char>, Seq<char>)>::empty());
        }
        p
    }

    /// The structured rendering built so far.
    pub fn get(&self) -> (r: String)
        ensures
            r@ == structured_render(self@),
    {
        let r = render_from(&self.prompts, 0);
        proof {
            assert(pieces_view(self.prompts@).skip(0) =~= self@);
        }
        r
    }

    /// Read access to the pieces, for callers that persist the prompt.
    pub fn pieces(&self) -> (r: &Vec<PromptPiece>)
        ensures
            pieces_view(r@) == self@,
    {
        &self.prompts
    }

    fn add_piece(&mut self, role: &str, content: &str)
        ensures
            final(self)@ == old(self)@.push((role@, content@)),
    {
        self.prompts.push(PromptPiece { role: role.to_owned(), content: content.to_owned() });
        proof {
            assert(pieces_view(self.prompts@) =~= old(self)@.push((role@, content@)));
        }
    }

    /// Appends priming content under the system role.
    pub fn add_priming(&mut self, content: &str)
        ensures
            final(self)@ == old(self)@.push(("system"@, content@)),
    {
        self.add_piece("system", content);
    }

    /// Appends problem content under the user role.
    pub fn add_problem(&mut self, content: &str)
        ensures
            final(self)@ == old(self)@.push(("user"@, content@)),
    {
        self.add_piece("user", content);
    }

    /// Appends solution content under the assistant role.
    pub fn add_solution(&mut self, content: &str)
        ensures
            final(self)@ == old(self)@.push(("assistant"@, content@)),
    {
        self.add_piece("assistant", content);
    }
}

/// Law: both renderings preserve the order of additions. Adding priming
/// `p`, then problem `q`, then solution `a` to fresh prompts yields a flat
/// text holding `p`, `q`, `a` in that order, each followed by a newline,
/// and a structured sequence whose records are (system, `p`), (user, `q`),
/// (assistant, `a`) in that order, rendered with separators only between
/// records.
pub proof fn lemma_renderings_preserve_add_order(p: Seq<char>, q: Seq<char>, a: Seq<char>)
    ensures
        flat_add(flat_add(flat_add(Seq::empty(), p), q), a) == p + seq!['\n'] + q + seq!['\n'] + a
            + seq!['\n'],
        structured_render(
            Seq::<(Seq<char>, Seq<char>)>::empty().push(("system"@, p)).push(("user"@, q)).push(
                ("assistant"@, a),
            ),
        ) == piece_record("system"@, p) + ",\n"@ + piece_record("user"@, q) + ",\n"@
            + piece_record("assistant"@, a),
{
    assert(flat_add(flat_add(flat_add(Seq::empty(), p), q), a) =~= p + seq!['\n'] + q + seq!['\n']
        + a + seq!['\n']);
    let ps = Seq::<(Seq<char>, Seq<char>)>::empty().push(("system"@, p)).push(("user"@, q)).push(
        ("assistant"@, a),
    );
    assert(ps.len() == 3);
    let ps2 = ps.drop_first();
    let ps1 = ps2.drop_first();
    assert(ps1.len() == 1 && ps1[0] == ("assistant"@, a));
    assert(ps2.len() == 2 && ps2[0] == ("user"@, q));
    assert(ps[0] == ("system"@, p));
    assert(structured_render(ps1) == piece_record("assistant"@, a));
    assert(structured_render(ps2) == piece_record("user"@, q) + ",\n"@ + structured_render(ps1));
    assert(structured_render(ps) == piece_record("system"@, p) + ",\n"@ + structured_render(ps2));
    assert(structured_render(ps) =~= piece_record("system"@, p) + ",\n"@ + piece_record("user"@, q)
        + ",\n"@ + piece_record("assistant"@, a));
}

} // verus!
