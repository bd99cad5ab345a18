//! Settings of the rolling log file: where it is written, how large one file may grow and how
//! many files are kept.
use vstd::prelude::*;

verus! {

pub struct MyLoggerBuilder {
    pub path: String,
    pub max_size: u64,
    pub file_count: u32,
}

impl MyLoggerBuilder {
    /// `logs/app.log`, files of 1 MiB, five of them kept.
    pub fn new() -> (b: MyLoggerBuilder)
        ensures
            b.path@ == "logs/app.log"@,
            b.max_size == 1024 * 1024,
            b.file_count == 5,
    {
        MyLoggerBuilder { path: "logs/app.log".to_owned(), max_size: 1 * 1024 * 1024, file_count: 5 }
    }

    pub fn path(self, path: &str) -> (b: MyLoggerBuilder)
        ensures
            b.path@ == path@,
            b.max_size == self.max_size,
            b.file_count == self.file_count,
    {
        MyLoggerBuilder { path: path.to_owned(), ..self }
    }

    pub fn max_size(self, max_size: u64) -> (b: MyLoggerBuilder)
        ensures
            b.path == self.path,
            b.max_size == max_size,
            b.file_count == self.file_count,
    {
        MyLoggerBuilder { max_size, ..self }
    }

    pub fn file_count(self, file_count: u32) -> (b: MyLoggerBuilder)
        ensures
            b.path == self.path,
            b.max_size == self.max_size,
            b.file_count == file_count,
    {
        MyLoggerBuilder { file_count, ..self }
    }
}

} // verus!
