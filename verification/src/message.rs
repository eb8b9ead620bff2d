use vstd::prelude::*;
use vstd::string::StringExecFns;

verus! {

/// A formatting template together with its already-rendered arguments.
/// `pieces` holds the literal fragments of the template and `args` the
/// rendered interpolated values, one fragment more than there are values;
/// the full message interleaves them, starting and ending with a fragment.
pub struct FormatArgs {
    pub pieces: Vec<String>,
    pub args: Vec<String>,
}

impl FormatArgs {
    /// Well-formed: one more literal fragment than interpolated values.
    pub open spec fn wf(self) -> bool {
        self.pieces@.len() == self.args@.len() + 1
    }

    /// The message rendered through `args[i - 1]`, ending with `pieces[i]`.
    pub open spec fn rendered_upto(self, i: int) -> Seq<char>
        decreases i,
    {
        if i <= 0 {
            self.pieces@[0]@
        } else {
            self.rendered_upto(i - 1) + self.args@[i - 1]@ + self.pieces@[i]@
        }
    }

    /// The fully rendered message.
    pub open spec fn rendered(self) -> Seq<char> {
        self.rendered_upto(self.args@.len() as int)
    }

    /// A template with no interpolation placeholders: the message is the
    /// template itself.
    pub fn from_text(text: String) -> (r: FormatArgs)
        ensures
            r.wf(),
            r.rendered() == text@,
            r.args@.len() == 0,
    {
        let mut pieces: Vec<String> = Vec::new();
        pieces.push(text);
        FormatArgs { pieces, args: Vec::new() }
    }

    /// A template assembled from explicit fragments and rendered values.
    pub fn new(pieces: Vec<String>, args: Vec<String>) -> (r: FormatArgs)
        requires
            pieces@.len() == args@.len() + 1,
        ensures
            r.wf(),
            r.pieces == pieces,
            r.args == args,
    {
        FormatArgs { pieces, args }
    }
}

/// Render the message. When the template has no interpolated values, the
/// single fragment is handed back directly (the fast path); otherwise the
/// fragments and values are interleaved into a fresh string. Both paths
/// return exactly `rendered()`, so the fast path is not observable in the
/// result.
pub fn render_message(m: &FormatArgs) -> (r: String)
    requires
        m.wf(),
    ensures
        r@ == m.rendered(),
{
    if m.args.len() == 0 {
        return m.pieces[0].clone();
    }
    let mut s: String = m.pieces[0].clone();
    let mut i: usize = 0;
    while i < m.args.len()
        invariant
            m.wf(),
            i <= m.args@.len(),
            s@ == m.rendered_upto(i as int),
        decreases m.args@.len() - i,
    {
        s.append(m.args[i].as_str());
        s.append(m.pieces[i + 1].as_str());
        i = i + 1;
    }
    s
}

/// For a template with no interpolation placeholders, the rendered message is
/// exactly the template's single fragment, so the fast path that hands the
/// fragment back agrees byte for byte with the general interleaving path.
pub proof fn lemma_fast_path_exact(m: FormatArgs)
    requires
        m.wf(),
        m.args@.len() == 0,
    ensures
        m.rendered() == m.pieces@[0]@,
{
}

} // verus!
