use vstd::prelude::*;
use vstd::string::*;

verus! {

/// Tracks the file being edited and the outcome of the last load or save.
/// Reading and writing are done by the caller, which reports each outcome:
/// the lines read or written, or the error's text.
pub struct IOCraftFileHandler {
    pub current_file: Option<String>,
    pub last_operation: String,
    pub operation_success: bool,
}

impl IOCraftFileHandler {
    pub fn new() -> (r: Self)
        ensures
            r.current_file is None,
            r.last_operation@ == "Ready"@,
            r.operation_success,
    {
        IOCraftFileHandler { current_file: None, last_operation: String::from_str("Ready"), operation_success: true }
    }

    /// Records the outcome of loading `filename` and hands it back.
    pub fn load_file(&mut self, filename: &str, loaded: Result<Vec<String>, String>) -> (r: Result<Vec<String>, String>)
        ensures
            r == loaded,
            loaded is Ok ==> {
                &&& final(self).current_file is Some
                &&& final(self).current_file->0@ == filename@
                &&& final(self).last_operation@ == "Loaded: "@ + filename@
                &&& final(self).operation_success
            },
            loaded is Err ==> {
                &&& final(self).current_file == old(self).current_file
                &&& final(self).last_operation@ == "Error loading "@ + filename@ + ": "@ + loaded->Err_0@
                &&& !final(self).operation_success
            },
    {
        match &loaded {
            Ok(_) => {
                self.current_file = Some(String::from_str(filename));
                let mut op = String::from_str("Loaded: ");
                op.append(filename);
                self.last_operation = op;
                self.operation_success = true;
            },
            Err(e) => {
                let mut op = String::from_str("Error loading ");
                op.append(filename);
                op.append(": ");
                op.append(e.as_str());
                self.last_operation = op;
                self.operation_success = false;
            },
        }
        loaded
    }

    /// Records the outcome of saving to `filename` and hands it back.
    pub fn save_file(&mut self, filename: &str, saved: Result<(), String>) -> (r: Result<(), String>)
        ensures
            r == saved,
            saved is Ok ==> {
                &&& final(self).current_file is Some
                &&& final(self).current_file->0@ == filename@
                &&& final(self).last_operation@ == "Saved: "@ + filename@
                &&& final(self).operation_success
            },
            saved is Err ==> {
                &&& final(self).current_file == old(self).current_file
                &&& final(self).last_operation@ == "Error saving "@ + filename@ + ": "@ + saved->Err_0@
                &&& !final(self).operation_success
            },
    {
        match &saved {
            Ok(_) => {
                self.current_file = Some(String::from_str(filename));
                let mut op = String::from_str("Saved: ");
                op.append(filename);
                self.last_operation = op;
                self.operation_success = true;
            },
            Err(e) => {
                let mut op = String::from_str("Error saving ");
                op.append(filename);
                op.append(": ");
                op.append(e.as_str());
                self.last_operation = op;
                self.operation_success = false;
            },
        }
        saved
    }

    /// The content of a new file: one empty line.
    pub fn new_file_content() -> (r: Vec<String>)
        ensures
            r@.len() == 1,
            r@[0]@ == Seq::<char>::empty(),
    {
        let mut v: Vec<String> = Vec::new();
        v.push(String::new());
        v
    }

    /// Records the outcome of writing a new, empty file `filename`.
    pub fn create_new_file(&mut self, filename: &str, saved: Result<(), String>) -> (r: Result<(), String>)
        ensures
            r == saved,
            saved is Ok ==> {
                &&& final(self).current_file is Some
                &&& final(self).current_file->0@ == filename@
                &&& final(self).last_operation@ == "Saved: "@ + filename@
                &&& final(self).operation_success
            },
            saved is Err ==> {
                &&& final(self).current_file == old(self).current_file
                &&& final(self).last_operation@ == "Error saving "@ + filename@ + ": "@ + saved->Err_0@
                &&& !final(self).operation_success
            },
    {
        self.save_file(filename, saved)
    }

    /// The file being edited, once one was loaded or saved.
    pub fn get_current_file(&self) -> (r: Option<&String>)
        ensures
            r == match &self.current_file {
                Some(f) => Some(f),
                None => None::<&String>,
            },
    {
        match &self.current_file {
            Some(f) => Some(f),
            None => None,
        }
    }

    /// A description of the last operation.
    pub fn get_last_operation(&self) -> (r: &String)
        ensures
            r == &self.last_operation,
    {
        &self.last_operation
    }

    /// Whether the last operation succeeded.
    pub fn is_last_operation_successful(&self) -> (r: bool)
        ensures
            r == self.operation_success,
    {
        self.operation_success
    }
}

impl Default for IOCraftFileHandler {
    fn default() -> (r: Self)
        ensures
            r.current_file is None,
            r.last_operation@ == "Ready"@,
            r.operation_success,
    {
        IOCraftFileHandler::new()
    }
}

} // verus!
