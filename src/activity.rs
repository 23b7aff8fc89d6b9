use vstd::prelude::*;
use vstd::string::StringExecFns;

verus! {

/// What is being edited: the current file, the project (working directory)
/// and the language of the current buffer.
#[derive(Debug)]
pub struct Activity {
    pub file: String,
    pub project: String,
    pub language: String,
}

/// The mathematical value of an [`Activity`].
pub struct ActivityModel {
    pub file: Seq<char>,
    pub project: Seq<char>,
    pub language: Seq<char>,
}

impl View for Activity {
    type V = ActivityModel;

    open spec fn view(&self) -> ActivityModel {
        ActivityModel { file: self.file@, project: self.project@, language: self.language@ }
    }
}

impl Activity {
    pub fn new(file: String, project: String, language: String) -> (r: Activity)
        ensures
            r.file == file,
            r.project == project,
            r.language == language,
    {
        Activity { file, project, language }
    }

    /// A copy of this activity, field by field.
    pub fn duplicate(&self) -> (r: Activity)
        ensures
            r == *self,
    {
        Activity::new(self.file.clone(), self.project.clone(), self.language.clone())
    }

    /// The data of the heartbeat event for this activity, as key and value:
    /// `file`, `project` and `language`, in that order.
    pub fn fields(&self) -> (r: Vec<(String, String)>)
        ensures
            r@.len() == 3,
            r@[0].0@ == "file"@,
            r@[0].1@ == self.file@,
            r@[1].0@ == "project"@,
            r@[1].1@ == self.project@,
            r@[2].0@ == "language"@,
            r@[2].1@ == self.language@,
    {
        let mut r: Vec<(String, String)> = Vec::new();
        r.push((String::from_str("file"), self.file.clone()));
        r.push((String::from_str("project"), self.project.clone()));
        r.push((String::from_str("language"), self.language.clone()));
        r
    }

    /// Whether both activities name the same file, project and language.
    pub fn same_as(&self, other: &Activity) -> (r: bool)
        ensures
            r == (self@ == other@),
    {
        self.file == other.file && self.project == other.project && self.language
            == other.language
    }
}

} // verus!
