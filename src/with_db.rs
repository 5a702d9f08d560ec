//! A syntax node paired with the database that resolves it, and the stream of
//! stable tokens read from it.
use vstd::prelude::*;

verus! {

/// A range of offsets in the source text.
#[derive(Clone, Copy, Debug, PartialEq, Eq, Structural)]
pub struct StableSpan {
    pub start: usize,
    pub end: usize,
}

/// A token whose text and place no longer depend on the database.
#[derive(Debug)]
pub struct StableToken {
    pub content: String,
    pub span: Option<StableSpan>,
}

/// A terminal node as the database resolves it: its text and its range.
pub struct ResolvedNode {
    pub text: String,
    pub start: usize,
    pub end: usize,
}

/// A syntax node together with the database it belongs to.
pub struct SyntaxNodeWithDb<'a, N, Db> {
    node: &'a N,
    db: &'a Db,
}

impl<'a, N, Db> SyntaxNodeWithDb<'a, N, Db> {
    pub closed spec fn spec_node(&self) -> N {
        *self.node
    }

    pub closed spec fn spec_db(&self) -> Db {
        *self.db
    }

    pub fn new(node: &'a N, db: &'a Db) -> (r: Self)
        ensures
            r.spec_node() == *node,
            r.spec_db() == *db,
    {
        SyntaxNodeWithDb { node, db }
    }

    /// The stream of stable tokens of the node, from its terminals as the
    /// database resolved them, in order.
    pub fn to_stable_token_stream(&self, terminals: Vec<ResolvedNode>) -> (r:
        SyntaxNodeWithDbIterator<'a, Db>)
        ensures
            r.wf(),
            r.remaining() == terminals@,
            r.spec_db() == self.spec_db(),
    {
        SyntaxNodeWithDbIterator::new(terminals, self.db)
    }

    pub fn node(&self) -> (r: &'a N)
        ensures
            *r == self.spec_node(),
    {
        self.node
    }

    pub fn db(&self) -> (r: &'a Db)
        ensures
            *r == self.spec_db(),
    {
        self.db
    }
}

/// The token a resolved node stands for.
pub open spec fn stable_token_of(node: ResolvedNode) -> (String, Option<StableSpan>) {
    (node.text, Some(StableSpan { start: node.start, end: node.end }))
}

/// The stable tokens of a node's terminals, in order.
pub struct SyntaxNodeWithDbIterator<'a, Db> {
    inner: Vec<ResolvedNode>,
    position: usize,
    db: &'a Db,
}

impl<'a, Db> SyntaxNodeWithDbIterator<'a, Db> {
    /// The terminals not yet read.
    pub closed spec fn remaining(&self) -> Seq<ResolvedNode> {
        self.inner@.subrange(self.position as int, self.inner@.len() as int)
    }

    pub closed spec fn wf(&self) -> bool {
        self.position <= self.inner@.len()
    }

    pub closed spec fn spec_db(&self) -> Db {
        *self.db
    }

    pub fn new(inner: Vec<ResolvedNode>, db: &'a Db) -> (r: Self)
        ensures
            r.wf(),
            r.remaining() == inner@,
            r.spec_db() == *db,
    {
        let r = SyntaxNodeWithDbIterator { inner, position: 0, db };
        assert(r.remaining() =~= r.inner@);
        r
    }

    /// The token of the next terminal, or `None` once all were read.
    pub fn next(&mut self) -> (r: Option<StableToken>)
        requires
            old(self).wf(),
        ensures
            final(self).wf(),
            final(self).spec_db() == old(self).spec_db(),
            old(self).remaining().len() == 0 ==> r is None && final(self).remaining() == old(
                self,
            ).remaining(),
            old(self).remaining().len() > 0 ==> (r matches Some(t) && (t.content, t.span)
                == stable_token_of(old(self).remaining()[0])),
            old(self).remaining().len() > 0 ==> final(self).remaining() == old(
                self,
            ).remaining().drop_first(),
    {
        if self.position >= self.inner.len() {
            return None;
        }
        let node = &self.inner[self.position];
        let token = StableToken {
            content: node.text.clone(),
            span: Some(StableSpan { start: node.start, end: node.end }),
        };
        self.position = self.position + 1;
        assert(self.remaining() =~= old(self).remaining().drop_first());
        Some(token)
    }
}

} // verus!
