use vstd::prelude::*;

verus! {

/// Text being generated, with the namespace it is scoped to.
pub struct OutFile {
    pub namespace: Vec<String>,
    pub header: bool,
    pub content: String,
}

/// `text` followed by a line break.
pub open spec fn line(text: Seq<char>) -> Seq<char> {
    text + "\n"@
}

impl OutFile {
    pub fn new(namespace: Vec<String>, header: bool) -> (r: OutFile)
        ensures
            r.namespace@ == namespace@,
            r.header == header,
            r.content@ == Seq::<char>::empty(),
    {
        OutFile { namespace, header, content: String::new() }
    }

    /// Appends `s` to the content.
    pub fn write(&mut self, s: &str)
        ensures
            final(self).content@ == old(self).content@ + s@,
            final(self).namespace@ == old(self).namespace@,
            final(self).header == old(self).header,
    {
        self.content.append(s);
    }

    /// Appends `s` and a line break.
    pub fn writeln(&mut self, s: &str)
        ensures
            final(self).content@ == old(self).content@ + line(s@),
            final(self).namespace@ == old(self).namespace@,
            final(self).header == old(self).header,
    {
        self.content.append(s);
        self.content.append("\n");
        assert(final(self).content@ =~= old(self).content@ + line(s@));
    }

    /// Separates what follows from what came before by an empty line.
    pub fn next_section(&mut self)
        ensures
            final(self).content@ == old(self).content@ + "\n"@,
            final(self).namespace@ == old(self).namespace@,
            final(self).header == old(self).header,
    {
        self.content.append("\n");
    }

    /// The generated text.
    pub fn content(self) -> (r: String)
        ensures
            r@ == self.content@,
    {
        self.content
    }
}


} // verus!
