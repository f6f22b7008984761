//! What is currently the wallpaper, and the command that applies it.

use vstd::prelude::*;
use vstd::string::{StrSliceExecFns, StringExecFns};
use crate::format::path_format;
use crate::picture::{is_load_result, FileFacts, ImageError, SavedImage};
use crate::text::{chars_of, str_equal, views};

verus! {

/// Why the state could not be read, or the wallpaper not be assigned.
#[derive(Debug)]
pub enum StateError {
    /// The file system failed; the message says how.
    FsError(String),
    /// The image of the state could not be had.
    ImageError(ImageError),
    /// The command that assigns the wallpaper failed, or there is none.
    AssignCommandError(String),
    /// No image has been set.
    NoImageSet,
}

impl StateError {
    /// The message of the error, as a text.
    pub open spec fn message_of(self) -> Seq<char> {
        match self {
            StateError::FsError(reason) => "An internal file system error occured: "@ + reason@,
            StateError::ImageError(error) => "An internal image error occured: "@
                + error.message_of(),
            StateError::AssignCommandError(reason) =>
                "The command for assigning a wallpaper failed: "@ + reason@,
            StateError::NoImageSet => "No image has been set"@,
        }
    }

    /// The message of the error.
    pub fn message(&self) -> (text: String)
        ensures
            text@ == self.message_of(),
    {
        match self {
            StateError::FsError(reason) => String::from_str(
                "An internal file system error occured: ",
            ).concat(reason.as_str()),
            StateError::ImageError(error) => String::from_str(
                "An internal image error occured: ",
            ).concat(error.message().as_str()),
            StateError::AssignCommandError(reason) => String::from_str(
                "The command for assigning a wallpaper failed: ",
            ).concat(reason.as_str()),
            StateError::NoImageSet => String::from_str("No image has been set"),
        }
    }
}

/// The pieces of a text between its spaces: one more than it has spaces.
pub open spec fn split_at_spaces(text: Seq<char>) -> Seq<Seq<char>>
    decreases text.len(),
{
    if text.len() == 0 {
        seq![Seq::empty()]
    } else {
        let before = split_at_spaces(text.drop_last());
        if text.last() == ' ' {
            before.push(Seq::empty())
        } else {
            before.drop_last().push(before.last().push(text.last()))
        }
    }
}

/// A text always splits into at least one piece.
pub proof fn lemma_split_is_not_empty(text: Seq<char>)
    ensures
        split_at_spaces(text).len() >= 1,
    decreases text.len(),
{
    if text.len() > 0 {
        lemma_split_is_not_empty(text.drop_last());
    }
}

/// The program of a command: what stands before its first space.
pub open spec fn program_of(command: Seq<char>) -> Seq<char> {
    split_at_spaces(command)[0]
}

/// The arguments of a command: the pieces between the spaces after the
/// program; a single empty argument where the command has no space.
pub open spec fn arguments_of(command: Seq<char>) -> Seq<Seq<char>> {
    let pieces = split_at_spaces(command);
    if pieces.len() == 1 {
        seq![Seq::empty()]
    } else {
        pieces.subrange(1, pieces.len() as int)
    }
}

/// The arguments with every one that is exactly `{path}` replaced by the
/// path.
pub open spec fn with_path(arguments: Seq<Seq<char>>, path: Seq<char>) -> Seq<Seq<char>> {
    arguments.map_values(
        |argument: Seq<char>|
            if argument == "{path}"@ {
                path
            } else {
                argument
            },
    )
}

/// Splits a text at its spaces.
pub fn split_spaces(text: &str) -> (pieces: Vec<String>)
    ensures
        views(pieces@) == split_at_spaces(text@),
{
    let chars = chars_of(text);
    let mut pieces: Vec<String> = Vec::new();
    let mut start: usize = 0;
    let mut i: usize = 0;
    proof {
        assert(text@.take(0).len() == 0);
        assert(text@.subrange(0, 0) =~= Seq::<char>::empty());
        assert(views(pieces@).push(text@.subrange(0, 0)) =~= seq![Seq::<char>::empty()]);
    }
    while i < chars.len()
        invariant
            start <= i <= chars.len(),
            chars@ == text@,
            views(pieces@).push(text@.subrange(start as int, i as int)) == split_at_spaces(
                text@.take(i as int),
            ),
        decreases chars.len() - i,
    {
        let ghost before = split_at_spaces(text@.take(i as int));
        let ghost now = text@.take(i + 1);
        let ghost so_far = pieces@;
        proof {
            assert(now.drop_last() =~= text@.take(i as int));
            assert(now.last() == text@[i as int]);
            assert(before.last() == text@.subrange(start as int, i as int));
            assert(before.drop_last() =~= views(so_far));
        }
        if chars[i] == ' ' {
            pieces.push(String::from_str(text.substring_char(start, i)));
            assert(views(pieces@) =~= before);
            start = i + 1;
            assert(text@.subrange(start as int, i + 1) =~= Seq::<char>::empty());
        } else {
            assert(text@.subrange(start as int, i + 1) =~= before.last().push(text@[i as int]));
        }
        i = i + 1;
    }
    assert(text@.take(chars.len() as int) =~= text@);
    let ghost so_far = pieces@;
    pieces.push(String::from_str(text.substring_char(start, i)));
    assert(views(pieces@) =~= views(so_far).push(text@.subrange(start as int, i as int)));
    pieces
}

/// A program and its arguments, ready to be run.
pub struct Invocation {
    pub program: String,
    pub args: Vec<String>,
}

/// How a run of the command ended.
pub struct CommandOutput {
    /// Whether it exited with status 0.
    pub success: bool,
    /// What it wrote to its error stream.
    pub stderr: String,
}

/// The command that assigns a wallpaper.
pub struct SetImageCommand {
    program: String,
    args: Vec<String>,
}

impl SetImageCommand {
    /// The program to run.
    pub closed spec fn program(self) -> Seq<char> {
        self.program@
    }

    /// The arguments, before the path is put in.
    pub closed spec fn arguments(self) -> Seq<Seq<char>> {
        views(self.args@)
    }

    /// Reads a command line: the program is what stands before the first
    /// space, the arguments are the pieces between the spaces after it.
    pub fn new(command: &str) -> (parsed: SetImageCommand)
        ensures
            parsed.program() == program_of(command@),
            parsed.arguments() == arguments_of(command@),
    {
        let mut pieces = split_spaces(command);
        proof {
            lemma_split_is_not_empty(command@);
        }
        let ghost all = pieces@;
        let program = pieces.remove(0);
        assert(views(pieces@) =~= views(all).subrange(1, all.len() as int));
        if pieces.len() == 0 {
            pieces.push(String::new());
            assert(views(pieces@) =~= seq![Seq::<char>::empty()]);
        }
        SetImageCommand { program, args: pieces }
    }

    /// What applying the command to an image comes to: the program, with
    /// the absolute path of the image in the place of every `{path}`
    /// argument; an image error where the image has no absolute path.
    pub open spec fn is_application(
        self,
        image: SavedImage,
        invocation: Result<Invocation, StateError>,
    ) -> bool {
        match image.absolute() {
            Some(path) => invocation matches Ok(run) && run.program@ == self.program() && views(
                run.args@,
            ) == with_path(self.arguments(), path),
            None => invocation matches Err(StateError::ImageError(ImageError::FsError(reason)))
                && reason@ == image.path(),
        }
    }

    /// Makes the invocation that assigns `image` as the wallpaper.
    pub fn apply(&self, image: &SavedImage) -> (invocation: Result<Invocation, StateError>)
        ensures
            self.is_application(*image, invocation),
    {
        let image_path = match image.get_absolute_path_as_string() {
            Ok(image_path) => image_path,
            Err(err) => return Err(StateError::ImageError(err)),
        };
        let mut used_args: Vec<String> = Vec::new();
        let mut i: usize = 0;
        while i < self.args.len()
            invariant
                i <= self.args.len(),
                views(used_args@) == with_path(views(self.args@).take(i as int), image_path@),
            decreases self.args.len() - i,
        {
            let ghost before = used_args@;
            let argument = &self.args[i];
            if str_equal(argument.as_str(), "{path}") {
                used_args.push(image_path.clone());
            } else {
                used_args.push(argument.clone());
            }
            assert(views(used_args@) =~= views(before).push(used_args@.last()@));
            assert(views(self.args@).take(i + 1) =~= views(self.args@).take(i as int).push(
                self.args@[i as int]@,
            ));
            assert(views(used_args@) =~= with_path(views(self.args@).take(i + 1), image_path@));
            i = i + 1;
        }
        assert(views(self.args@).take(self.args@.len() as int) =~= views(self.args@));
        Ok(Invocation { program: self.program.clone(), args: used_args })
    }

    /// Judges a run of the command: it succeeded where it exited with
    /// status 0. Where it did not, what it wrote to its error stream is the
    /// error; where it could not be started, the reason is. Both are errors
    /// of the command, and none of the file system.
    pub fn outcome(run: Result<CommandOutput, String>) -> (result: Result<(), StateError>)
        ensures
            match run {
                Ok(output) => if output.success {
                    result is Ok
                } else {
                    result matches Err(StateError::AssignCommandError(reason)) && reason@
                        == output.stderr@
                },
                Err(why) => result matches Err(StateError::AssignCommandError(reason)) && reason@
                    == why@,
            },
    {
        match run {
            Ok(output) => {
                if output.success {
                    Ok(())
                } else {
                    Err(StateError::AssignCommandError(output.stderr))
                }
            },
            Err(why) => Err(StateError::AssignCommandError(why)),
        }
    }
}

/// What the wallpaper was set from.
pub enum ImageStateType {
    /// An image by itself.
    Image { path: String },
    /// An image drawn from a collection.
    Collection { name: String, image_path: String },
}

impl ImageStateType {
    /// The path of the image.
    pub open spec fn image_path(self) -> Seq<char> {
        match self {
            ImageStateType::Image { path } => path@,
            ImageStateType::Collection { name, image_path } => image_path@,
        }
    }

    /// The path of the image that is the wallpaper.
    pub fn get_image_path(&self) -> (path: &str)
        ensures
            path@ == self.image_path(),
    {
        match self {
            ImageStateType::Image { path } => path.as_str(),
            ImageStateType::Collection { name: _, image_path } => image_path.as_str(),
        }
    }

    /// What loading the image of the state comes to: the image at its path,
    /// or the reason why there is none, as an image error.
    pub open spec fn is_loaded(
        self,
        facts: FileFacts,
        image: Result<SavedImage, StateError>,
    ) -> bool {
        match image {
            Ok(saved) => is_load_result(self.image_path(), facts, Ok(saved)),
            Err(StateError::ImageError(error)) => is_load_result(
                self.image_path(),
                facts,
                Err(error),
            ),
            Err(_) => false,
        }
    }

    /// Loads the image of the state; `facts` is what the file system says
    /// of its path.
    pub fn load_saved_image(&self, facts: &FileFacts) -> (image: Result<SavedImage, StateError>)
        ensures
            self.is_loaded(*facts, image),
    {
        match SavedImage::from_path(self.get_image_path(), facts) {
            Ok(image) => Ok(image),
            Err(err) => Err(StateError::ImageError(err)),
        }
    }
}

/// What reading the state file came to.
pub enum StateFile {
    /// There is no file.
    Missing,
    /// The file could not be read; the reason says why.
    Unreadable(String),
    /// The file does not hold a state.
    Unparseable,
    /// The file holds this state.
    Parsed(Option<ImageStateType>),
}

/// The record of what is currently the wallpaper.
pub struct State {
    image: Option<ImageStateType>,
}

impl State {
    /// What the wallpaper was set from, if it was set.
    pub closed spec fn current(self) -> Option<ImageStateType> {
        self.image
    }

    /// The state that a state file gives: the one it holds; nothing set
    /// where there is no file, or none that can be understood. Only a file
    /// that is there and cannot be read is an error.
    pub fn open(file: StateFile) -> (state: Result<Self, StateError>)
        ensures
            match file {
                StateFile::Missing => state matches Ok(s) && s.current() is None,
                StateFile::Unparseable => state matches Ok(s) && s.current() is None,
                StateFile::Parsed(image) => state matches Ok(s) && s.current() == image,
                StateFile::Unreadable(why) => state matches Err(StateError::FsError(reason))
                    && reason@ == why@,
            },
    {
        match file {
            StateFile::Missing => Ok(State { image: None }),
            StateFile::Unparseable => Ok(State { image: None }),
            StateFile::Parsed(image) => Ok(State { image }),
            StateFile::Unreadable(why) => Err(StateError::FsError(why)),
        }
    }

    /// What assigning the current image comes to. With nothing set, there
    /// is nothing to run. Else a command has to be configured, the file of
    /// the image has to be there, named as an image, with an absolute path:
    /// then the command is run with that path in place of `{path}`.
    pub open spec fn is_assignment(
        self,
        set_command: Option<Seq<char>>,
        facts: FileFacts,
        assignment: Result<Option<Invocation>, StateError>,
    ) -> bool {
        match self.current() {
            None => assignment matches Ok(None),
            Some(current) => match set_command {
                None => assignment matches Err(StateError::AssignCommandError(reason)) && reason@
                    == "Not assign command specified"@,
                Some(command) => if !facts.is_file {
                    assignment matches Err(StateError::ImageError(ImageError::NotFound))
                } else if path_format(current.image_path()) is None {
                    assignment matches Err(StateError::ImageError(ImageError::InvalidFormat))
                } else {
                    match facts.absolute {
                        None => assignment matches Err(
                            StateError::ImageError(ImageError::FsError(reason)),
                        ) && reason@ == current.image_path(),
                        Some(absolute) => assignment matches Ok(Some(run)) && run.program@
                            == program_of(command) && views(run.args@) == with_path(
                            arguments_of(command),
                            absolute@,
                        ),
                    }
                },
            },
        }
    }

    /// Works out how to apply the current image as the wallpaper; `facts`
    /// is what the file system says of the image's path. The state itself
    /// does not change.
    pub fn assign_current_image(&self, set_command: Option<&str>, facts: &FileFacts) -> (assignment:
        Result<Option<Invocation>, StateError>)
        ensures
            self.is_assignment(
                match set_command {
                    Some(command) => Some(command@),
                    None => None,
                },
                *facts,
                assignment,
            ),
    {
        if let Some(current_image) = &self.image {
            if let Some(set_command) = set_command {
                let image = match current_image.load_saved_image(facts) {
                    Ok(image) => image,
                    Err(error) => return Err(error),
                };
                let command = SetImageCommand::new(set_command);
                match command.apply(&image) {
                    Ok(run) => Ok(Some(run)),
                    Err(error) => Err(error),
                }
            } else {
                Err(StateError::AssignCommandError(String::from_str("Not assign command specified")))
            }
        } else {
            Ok(None)
        }
    }

    /// What the wallpaper was set from, if it was set.
    pub fn get_state(&self) -> (state: Option<&ImageStateType>)
        ensures
            match state {
                Some(image) => self.current() == Some(*image),
                None => self.current() is None,
            },
    {
        self.image.as_ref()
    }

    /// The image that is currently the wallpaper; `facts` is what the file
    /// system says of its path. With nothing set, the error says so.
    pub fn get_current_image(&self, facts: &FileFacts) -> (image: Result<SavedImage, StateError>)
        ensures
            match self.current() {
                Some(current) => current.is_loaded(*facts, image),
                None => image matches Err(StateError::NoImageSet),
            },
    {
        if let Some(current_image) = &self.image {
            current_image.load_saved_image(facts)
        } else {
            Err(StateError::NoImageSet)
        }
    }

    /// Records `image` as the wallpaper, under its absolute path. Where the
    /// image has none, the state stays as it is.
    pub fn set_current_image(&mut self, image: &SavedImage) -> (result: Result<(), StateError>)
        ensures
            match image.absolute() {
                Some(absolute) => result is Ok && (final(self).current() matches Some(
                    ImageStateType::Image { path },
                ) && path@ == absolute),
                None => (result matches Err(StateError::ImageError(ImageError::FsError(reason)))
                    && reason@ == image.path()) && final(self).current() == old(self).current(),
            },
    {
        match image.get_absolute_path_as_string() {
            Ok(path) => {
                self.image = Some(ImageStateType::Image { path });
                Ok(())
            },
            Err(err) => Err(StateError::ImageError(err)),
        }
    }

    /// Records `image` as the wallpaper, as drawn from the collection of
    /// that name. Where the image has no absolute path, the state stays as
    /// it is.
    pub fn set_current_collection(&mut self, collection: &str, image: &SavedImage) -> (result:
        Result<(), StateError>)
        ensures
            match image.absolute() {
                Some(absolute) => result is Ok && (final(self).current() matches Some(
                    ImageStateType::Collection { name, image_path },
                ) && name@ == collection@ && image_path@ == absolute),
                None => (result matches Err(StateError::ImageError(ImageError::FsError(reason)))
                    && reason@ == image.path()) && final(self).current() == old(self).current(),
            },
    {
        match image.get_absolute_path_as_string() {
            Ok(image_path) => {
                self.image = Some(
                    ImageStateType::Collection { name: String::from_str(collection), image_path },
                );
                Ok(())
            },
            Err(err) => Err(StateError::ImageError(err)),
        }
    }
}

/// An image that was set is the image that is got back, as long as its file
/// is there: a state that holds the absolute path of an image gives, for a
/// file at that path, the image at that very path; and where the file is
/// gone, it gives the error that the image was not found.
pub proof fn lemma_set_image_is_got_back(
    state: State,
    absolute: Seq<char>,
    facts: FileFacts,
    image: Result<SavedImage, StateError>,
)
    requires
        state.current() matches Some(ImageStateType::Image { path }) && path@ == absolute,
        state.current()->0.is_loaded(facts, image),
    ensures
        facts.is_file && path_format(absolute) is Some ==> (image matches Ok(saved) && saved.path()
            == absolute),
        !facts.is_file ==> image matches Err(StateError::ImageError(ImageError::NotFound)),
{
}

} // verus!
