use vstd::prelude::*;

verus! {

/// The executables that the installer copies once per JDK tool name.
pub struct ExecutorInfo {
    pub filenames: Vec<String>,
}

/// The build settings: which tool names get a proxy executable.
pub struct Config {
    pub executor: ExecutorInfo,
}

/// `\n\t"<name>"` for each name, one after another.
pub open spec fn filenames_text(names: Seq<Seq<char>>) -> Seq<char>
    decreases names.len(),
{
    if names.len() == 0 {
        Seq::empty()
    } else {
        filenames_text(names.drop_last()) + "\n\t\""@ + names.last() + "\""@
    }
}

/// `ExecutorInfo: [` then the names, each on a line of its own, then `]`.
pub open spec fn executor_text(names: Seq<Seq<char>>) -> Seq<char> {
    "ExecutorInfo: ["@ + filenames_text(names) + "\n]"@
}

impl ExecutorInfo {
    pub open spec fn names(&self) -> Seq<Seq<char>> {
        self.filenames@.map_values(|s: String| s@)
    }

    /// The tool names as text, each quoted on a line of its own.
    pub fn to_string(&self) -> (r: String)
        ensures
            r@ == executor_text(self.names()),
    {
        let mut r = String::from_str("ExecutorInfo: [");
        let ghost head = r@;
        let ghost all = self.names();
        let mut i: usize = 0;
        while i < self.filenames.len()
            invariant
                i <= all.len(),
                all == self.names(),
                r@ == head + filenames_text(all.take(i as int)),
            decreases all.len() - i,
        {
            r.append("\n\t\"");
            r.append(self.filenames[i].as_str());
            r.append("\"");
            assert(all.take(i + 1).drop_last() =~= all.take(i as int));
            i = i + 1;
            assert(r@ =~= head + filenames_text(all.take(i as int)));
        }
        assert(all.take(all.len() as int) =~= all);
        r.append("\n]");
        r
    }
}

impl Config {
    /// The settings as text: that of the executor list.
    pub fn to_string(&self) -> (r: String)
        ensures
            r@ == executor_text(self.executor.names()),
    {
        self.executor.to_string()
    }
}

} // verus!
