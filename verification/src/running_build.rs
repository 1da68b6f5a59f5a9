use vstd::prelude::*;
use vstd::string::StringExecFns;

verus! {

/// The log lines of one build, each followed by a newline; an empty log
/// persists as a single newline.
pub open spec fn joined_lines(lines: Seq<Seq<char>>) -> Seq<char>
    decreases lines.len(),
{
    if lines.len() == 0 {
        Seq::empty()
    } else {
        joined_lines(lines.drop_last()) + lines.last() + "\n"@
    }
}

/// The persisted form of a build's log: the lines newline-joined with a
/// trailing newline.
pub open spec fn persisted_logs(lines: Seq<Seq<char>>) -> Seq<char> {
    if lines.len() == 0 {
        "\n"@
    } else {
        joined_lines(lines)
    }
}

/// Where a build's log is persisted under a logs directory.
pub open spec fn log_path_spec(logs_dir: Seq<char>, id: Seq<char>) -> Seq<char> {
    logs_dir + "/"@ + id + "-logs.txt"@
}

/// One live build: its identifier and its append-only log buffer. The
/// multicast side of log delivery lives with the driver; the buffer here is
/// what a late subscriber replays.
#[derive(Debug)]
pub struct RunningBuild {
    pub id: String,
    pub logs: Vec<String>,
}

impl RunningBuild {
    pub fn new(id: &str) -> (build: Self)
        ensures
            build.id@ == id@,
            build.logs.deep_view() == Seq::<Seq<char>>::empty(),
    {
        let build = RunningBuild { id: id.to_owned(), logs: Vec::new() };
        proof {
            assert(build.logs.deep_view() =~= Seq::<Seq<char>>::empty());
        }
        build
    }

    /// The exact text written to the build's persisted log file.
    pub fn render_logs(&self) -> (text: String)
        ensures
            text@ == persisted_logs(self.logs.deep_view()),
    {
        let n = self.logs.len();
        if n == 0 {
            return "\n".to_owned();
        }
        let mut text = String::new();
        let mut i: usize = 0;
        proof {
            assert(self.logs.deep_view().subrange(0, 0) =~= Seq::<Seq<char>>::empty());
        }
        while i < n
            invariant
                i <= n,
                n == self.logs@.len(),
                text@ == joined_lines(self.logs.deep_view().subrange(0, i as int)),
            decreases n - i,
        {
            text.append(self.logs[i].as_str());
            text.append("\n");
            proof {
                let deep = self.logs.deep_view();
                assert(deep.subrange(0, i + 1).drop_last() =~= deep.subrange(0, i as int));
                assert(deep.subrange(0, i + 1).last() == deep[i as int]);
            }
            i += 1;
        }
        proof {
            assert(self.logs.deep_view().subrange(0, n as int) =~= self.logs.deep_view());
        }
        text
    }

    /// The path of the build's persisted log file under `logs_dir`.
    pub fn log_path(&self, logs_dir: &str) -> (path: String)
        ensures
            path@ == log_path_spec(logs_dir@, self.id@),
    {
        let mut path: String = logs_dir.to_owned();
        path.append("/");
        path.append(self.id.as_str());
        path.append("-logs.txt");
        path
    }
}

} // verus!
