//! The settings of one run, as the command line gave them.

use crate::text::texts;
use crate::user::User;
use vstd::prelude::*;

verus! {

/// The settings of one run.
pub struct Args {
    init_map: bool,
    save_file: String,
    map_gen_settings: String,
    map_settings: String,
    exe_path: Option<String>,
    data_dir: Option<String>,
    user: Option<User>,
    command: Vec<String>,
}

/// The mathematical value of [`Args`].
#[verifier::ext_equal]
pub struct ArgsView {
    /// Whether a new save file is to be made where there is none.
    pub init_map: bool,
    /// The path of the save file.
    pub save_file: Seq<char>,
    /// The path of the settings of the map generator.
    pub map_gen_settings: Seq<char>,
    /// The path of the settings of the map.
    pub map_settings: Seq<char>,
    /// Where a link to the server binary is wanted, if anywhere.
    pub exe_path: Option<Seq<char>>,
    /// Where a link to the server data is wanted, if anywhere.
    pub data_dir: Option<Seq<char>>,
    /// The account to act as, if not the one that runs the program.
    pub user: Option<User>,
    /// The command to run in the end, with its arguments.
    pub command: Seq<Seq<char>>,
}

/// The text in `text`, if any.
pub open spec fn text_view(text: Option<String>) -> Option<Seq<char>> {
    match text {
        Some(s) => Some(s@),
        None => None,
    }
}

impl View for Args {
    type V = ArgsView;

    closed spec fn view(&self) -> ArgsView {
        ArgsView {
            init_map: self.init_map,
            save_file: self.save_file@,
            map_gen_settings: self.map_gen_settings@,
            map_settings: self.map_settings@,
            exe_path: text_view(self.exe_path),
            data_dir: text_view(self.data_dir),
            user: self.user,
            command: texts(self.command@),
        }
    }
}

fn as_deref(text: &Option<String>) -> (slice: Option<&str>)
    ensures
        slice is Some <==> text is Some,
        slice matches Some(s) ==> Some(s@) == text_view(*text),
{
    match text {
        Some(s) => Some(s.as_str()),
        None => None,
    }
}

impl Args {
    /// The settings with these values.
    pub fn new(
        init_map: bool,
        save_file: String,
        map_gen_settings: String,
        map_settings: String,
        exe_path: Option<String>,
        data_dir: Option<String>,
        user: Option<User>,
        command: Vec<String>,
    ) -> (args: Self)
        ensures
            args@ == (ArgsView {
                init_map,
                save_file: save_file@,
                map_gen_settings: map_gen_settings@,
                map_settings: map_settings@,
                exe_path: text_view(exe_path),
                data_dir: text_view(data_dir),
                user,
                command: texts(command@),
            }),
    {
        Self {
            init_map,
            save_file,
            map_gen_settings,
            map_settings,
            exe_path,
            data_dir,
            user,
            command,
        }
    }

    /// Whether a new save file is to be made where there is none.
    pub fn init_map(&self) -> (init_map: bool)
        ensures
            init_map == self@.init_map,
    {
        self.init_map
    }

    /// The path of the save file.
    pub fn save_file(&self) -> (path: &str)
        ensures
            path@ == self@.save_file,
    {
        self.save_file.as_str()
    }

    /// The path of the settings of the map generator.
    pub fn map_gen_settings(&self) -> (path: &str)
        ensures
            path@ == self@.map_gen_settings,
    {
        self.map_gen_settings.as_str()
    }

    /// The path of the settings of the map.
    pub fn map_settings(&self) -> (path: &str)
        ensures
            path@ == self@.map_settings,
    {
        self.map_settings.as_str()
    }

    /// Where a link to the server binary is wanted, if anywhere.
    pub fn exe_path(&self) -> (path: Option<&str>)
        ensures
            path is Some <==> self@.exe_path is Some,
            path matches Some(p) ==> self@.exe_path == Some(p@),
    {
        as_deref(&self.exe_path)
    }

    /// Where a link to the server data is wanted, if anywhere.
    pub fn data_dir(&self) -> (path: Option<&str>)
        ensures
            path is Some <==> self@.data_dir is Some,
            path matches Some(p) ==> self@.data_dir == Some(p@),
    {
        as_deref(&self.data_dir)
    }

    /// The account to act as, if not the one that runs the program.
    pub fn user(&self) -> (user: Option<User>)
        ensures
            user == self@.user,
    {
        self.user
    }

    /// The command to run in the end, with its arguments.
    pub fn exec(&self) -> (words: Vec<&str>)
        ensures
            words@.len() == self@.command.len(),
            forall|i: int| 0 <= i < words@.len() ==> (#[trigger] words@[i])@ == self@.command[i],
    {
        let mut words: Vec<&str> = Vec::new();
        let mut i: usize = 0;
        while i < self.command.len()
            invariant
                i <= self.command@.len(),
                words@.len() == i,
                forall|j: int| 0 <= j < i ==> (#[trigger] words@[j])@ == self.command@[j]@,
            decreases self.command.len() - i,
        {
            words.push(self.command[i].as_str());
            i += 1;
        }
        words
    }
}

}
