//! The commands of the command line that end the program before the
//! server starts.

use crate::text::same_text;
use vstd::prelude::*;

verus! {

/// The flags of the command line.
#[derive(Debug, Clone, Copy, PartialEq, Eq, Structural)]
pub struct Cli {
    /// Print the OpenAPI description and exit.
    pub emit_openapi: bool,
    /// Write the OpenAPI description to a file and exit.
    pub gen_openapi: bool,
}

/// What the program is to do.
#[derive(Debug, Clone, Copy, PartialEq, Eq, Structural)]
pub enum CliCommand {
    EmitOpenapi,
    GenerateOpenapi,
    Serve,
}

impl Cli {
    /// What the flags ask for; printing wins over writing a file.
    pub open spec fn command_spec(&self) -> CliCommand {
        if self.emit_openapi {
            CliCommand::EmitOpenapi
        } else if self.gen_openapi {
            CliCommand::GenerateOpenapi
        } else {
            CliCommand::Serve
        }
    }

    /// What the flags ask for; printing wins over writing a file.
    pub fn command(&self) -> (c: CliCommand)
        ensures
            c == self.command_spec(),
    {
        if self.emit_openapi {
            CliCommand::EmitOpenapi
        } else if self.gen_openapi {
            CliCommand::GenerateOpenapi
        } else {
            CliCommand::Serve
        }
    }

    /// Whether the flags name a command after which the program exits
    /// without running the server.
    pub fn handle_commands(&self) -> (exits: bool)
        ensures
            exits == (self.emit_openapi || self.gen_openapi),
            exits == (self.command_spec() != CliCommand::Serve),
    {
        match self.command() {
            CliCommand::Serve => false,
            _ => true,
        }
    }
}

/// The directory that the OpenAPI file goes to.
pub open spec fn output_dir(cwd_name: Option<Seq<char>>) -> Seq<char> {
    if cwd_name == Some("frontend"@) {
        "."@
    } else {
        "./frontend"@
    }
}

/// The path of the OpenAPI file, given the last component of the working
/// directory where it is known: the file goes into the frontend's
/// directory, which is the working directory itself when that is named
/// `frontend`.
pub fn openapi_output_path(cwd_name: Option<&str>) -> (path: String)
    ensures
        path@ == output_dir(
            match cwd_name {
                Some(name) => Some(name@),
                None => None,
            },
        ) + "/openapi.json"@,
{
    let inside = match cwd_name {
        Some(name) => same_text(name, "frontend"),
        None => false,
    };
    let dir = if inside {
        "."
    } else {
        "./frontend"
    };
    String::from_str(dir).concat("/openapi.json")
}

} // verus!
