use vstd::prelude::*;

verus! {

/// The model of a [`CachePath`].
pub struct CachePathView {
    pub root: Seq<char>,
    pub pieces: Seq<Seq<char>>,
}

impl CachePathView {
    /// This path with `piece` pushed onto it.
    pub open spec fn push(self, piece: Seq<char>) -> CachePathView {
        CachePathView { root: self.root, pieces: self.pieces.push(piece) }
    }
}

/// A location in the file system, held as the directory it starts from and
/// the pieces that were pushed onto it, in order.
///
/// The library never joins the pieces: whoever touches the file system pushes
/// them, one after the other, onto a path of the platform.
#[derive(Debug, PartialEq, Eq)]
pub struct CachePath {
    root: String,
    pieces: Vec<String>,
}

impl DeepView for CachePath {
    type V = CachePathView;

    closed spec fn deep_view(&self) -> CachePathView {
        CachePathView { root: self.root@, pieces: self.pieces.deep_view() }
    }
}

impl View for CachePath {
    type V = CachePathView;

    open spec fn view(&self) -> CachePathView {
        self.deep_view()
    }
}

impl Clone for CachePath {
    fn clone(&self) -> (copy: Self)
        ensures
            copy@ == self@,
    {
        let mut pieces: Vec<String> = Vec::new();
        let mut i: usize = 0;
        while i < self.pieces.len()
            invariant
                i <= self.pieces.len(),
                pieces.deep_view() =~= self.pieces.deep_view().take(i as int),
            decreases self.pieces.len() - i,
        {
            let ghost before = pieces.deep_view();
            let piece = self.pieces[i].clone();
            pieces.push(piece);
            assert(pieces.deep_view() =~= before.push(piece@));
            i += 1;
        }
        assert(self.pieces.deep_view().take(i as int) =~= self.pieces.deep_view());
        CachePath { root: self.root.clone(), pieces }
    }
}

impl CachePath {
    /// The path `root` with nothing pushed onto it.
    pub fn new(root: &str) -> (path: Self)
        ensures
            path@ == (CachePathView { root: root@, pieces: Seq::empty() }),
    {
        let path = CachePath { root: String::from_str(root), pieces: Vec::new() };
        assert(path.pieces.deep_view() =~= Seq::empty());
        path
    }

    /// Pushes `piece` onto this path.
    pub fn push(&mut self, piece: &str)
        ensures
            final(self)@ == old(self)@.push(piece@),
    {
        let ghost before = self.pieces.deep_view();
        self.pieces.push(String::from_str(piece));
        assert(self.pieces.deep_view() =~= before.push(piece@));
    }

    pub fn get_root(&self) -> (root: &String)
        ensures
            root@ == self@.root,
    {
        &self.root
    }

    pub fn get_pieces(&self) -> (pieces: &Vec<String>)
        ensures
            pieces.deep_view() == self@.pieces,
    {
        &self.pieces
    }
}

} // verus!
