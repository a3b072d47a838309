//! The tool's command model: arguments, commands, and the run's
//! decisions.
//!
//! Every file-system effect of a run is decided here and described as a
//! plain value — a plan, a directory action, file names and contents —
//! so that the surrounding program only has to carry the decisions out.

use vstd::prelude::*;
use vstd::string::StringExecFns;

use crate::loader::{ParseError, load_hosts_from_str, spec_load};
use crate::model::{HostInfo, host_names_unique, hosts_view};
use crate::render::{
    files_view, owned, render_host_file, render_summary, spec_host_file, spec_render_files,
    spec_summary,
};
use crate::toml_api::toml_doc;

verus! {

/// The tool's commands: write the fixed example document, load a
/// document and show its summary, or load a document, show its summary
/// and render the output files.
pub enum MainCommand {
    Example,
    Test,
    Generate { output: Option<String> },
}

/// The command-line arguments: an optional document path and the
/// command to run.
pub struct CliArgs {
    /// Path of the document; a fixed well-known name when absent.
    pub file: Option<String>,
    /// The command to run.
    pub main_command: MainCommand,
}

/// What a run does, decided from the arguments alone: which file to
/// write or read, and where the output goes.
pub enum RunPlan {
    WriteExample { path: String, content: String },
    Test { config_path: String },
    Generate { config_path: String, output_dir: String },
}

/// What to do with the output path before writing: create it when
/// nothing is there; wipe a pre-existing directory and start fresh, so
/// that files of hosts removed from the document do not linger; refuse
/// to touch a path that exists and is not a directory, writing nothing.
pub enum DirAction {
    Create,
    WipeAndCreate,
    Reject,
}

/// Decide what to do with the output path, from what is there.
pub fn output_dir_action(exists: bool, is_dir: bool) -> (a: DirAction)
    ensures
        a is Create <==> !exists,
        a is WipeAndCreate <==> exists && is_dir,
        a is Reject <==> exists && !is_dir,
{
    if !exists {
        DirAction::Create
    } else if is_dir {
        DirAction::WipeAndCreate
    } else {
        DirAction::Reject
    }
}

/// The fixed example document: two hosts, one with two services and
/// one with a single service.
pub open spec fn spec_example_config() -> Seq<char> {
    "# Example configuration\n\n"@
        + "[server0]\ndomain = \"server0.com\"\nforward_server = \"$server_addr\"\n\n"@
        + "[[server0.services]]\nname = \"www\"\nforward_scheme = \"https\"\nport = 443\n\n"@
        + "[[server0.services]]\nname = \"nav\"\nforward_scheme = \"http\"\nport = 80\n\n"@
        + "[server1]\ndomain = \"server1\"\nforward_server = \"192.168.1.100\"\n\n"@
        + "[[server1.services]]\nname = \"h5\"\nforward_scheme = \"http\"\nport = 8000\n"@
}

/// The example document's text; the same on every run.
pub fn example_config_text() -> (r: String)
    ensures
        r@ == spec_example_config(),
{
    let mut s = String::new();
    s.append("# Example configuration\n\n");
    proof {
        assert(s@ =~= "# Example configuration\n\n"@);
    }
    s.append("[server0]\ndomain = \"server0.com\"\nforward_server = \"$server_addr\"\n\n");
    s.append("[[server0.services]]\nname = \"www\"\nforward_scheme = \"https\"\nport = 443\n\n");
    s.append("[[server0.services]]\nname = \"nav\"\nforward_scheme = \"http\"\nport = 80\n\n");
    s.append("[server1]\ndomain = \"server1\"\nforward_server = \"192.168.1.100\"\n\n");
    s.append("[[server1.services]]\nname = \"h5\"\nforward_scheme = \"http\"\nport = 8000\n");
    s
}

/// The tool: the arguments it was started with, and the host mapping
/// once a document has been loaded.
pub struct Cli {
    /// The command-line arguments.
    pub cli_args: CliArgs,
    /// The loaded host mapping, in document order; empty until a
    /// document has been loaded.
    pub server_config: Vec<(String, HostInfo)>,
}

impl Cli {
    /// The document path of this run: the one given, or the fixed
    /// well-known name.
    pub open spec fn spec_config_path(&self) -> Seq<char> {
        match self.cli_args.file {
            Some(f) => f@,
            None => "config.toml"@,
        }
    }

    /// Make the tool from its arguments; no document is loaded yet.
    pub fn create(cli_args: CliArgs) -> (cli: Cli)
        ensures
            cli.cli_args == cli_args,
            cli.server_config@ =~= Seq::<(String, HostInfo)>::empty(),
    {
        Cli { cli_args, server_config: Vec::new() }
    }

    /// The document path of this run.
    fn get_config_path(&self) -> (p: String)
        ensures
            p@ == self.spec_config_path(),
    {
        match &self.cli_args.file {
            Some(f) => f.clone(),
            None => owned("config.toml"),
        }
    }

    /// Decide what this run does, from the arguments alone: the
    /// example command writes the fixed example document at the
    /// document path; the test command loads the document; the
    /// generate command loads it and renders into the given output
    /// directory, or into the fixed default one.
    pub fn startup(&self) -> (plan: RunPlan)
        ensures
            match self.cli_args.main_command {
                MainCommand::Example => plan matches RunPlan::WriteExample { path, content }
                    && path@ == self.spec_config_path() && content@ == spec_example_config(),
                MainCommand::Test => plan matches RunPlan::Test { config_path }
                    && config_path@ == self.spec_config_path(),
                MainCommand::Generate { output } => plan matches RunPlan::Generate {
                    config_path,
                    output_dir,
                } && config_path@ == self.spec_config_path() && output_dir@ == match output {
                    Some(o) => o@,
                    None => "output"@,
                },
            },
    {
        match &self.cli_args.main_command {
            MainCommand::Example => RunPlan::WriteExample {
                path: self.get_config_path(),
                content: example_config_text(),
            },
            MainCommand::Test => RunPlan::Test { config_path: self.get_config_path() },
            MainCommand::Generate { output } => {
                let output_dir = match output {
                    Some(o) => o.clone(),
                    None => owned("output"),
                };
                RunPlan::Generate { config_path: self.get_config_path(), output_dir }
            },
        }
    }

    /// The example document and where to write it.
    pub fn example(&self) -> (r: (String, String))
        ensures
            r.0@ == self.spec_config_path(),
            r.1@ == spec_example_config(),
    {
        (self.get_config_path(), example_config_text())
    }

    /// Load the host mapping from a document text.
    ///
    /// Succeeds exactly when the text is a valid, well-shaped document,
    /// and then replaces the mapping with the document's hosts, names
    /// unique.  On failure nothing changes; the error is `Syntax`
    /// exactly when the text is not a valid document, and `Shape` when
    /// it is valid but ill-shaped.
    pub fn load_config(&mut self, text: &str) -> (r: Result<(), ParseError>)
        ensures
            r is Ok <==> spec_load(text@) is Some,
            r is Ok ==> hosts_view(final(self).server_config@) == spec_load(text@)->Some_0
                && host_names_unique(hosts_view(final(self).server_config@))
                && final(self).cli_args == old(self).cli_args,
            r matches Err(e) ==> *final(self) == *old(self) && (e is Syntax <==> toml_doc(
                text@,
            ) is None),
    {
        match load_hosts_from_str(text) {
            Ok(hosts) => {
                self.server_config = hosts;
                Ok(())
            },
            Err(e) => Err(e),
        }
    }

    /// The summary of the loaded mapping: per host, a line with its
    /// name and one line per service with the public URL and the
    /// upstream target.
    pub fn display_config(&self) -> (s: String)
        ensures
            s@ == spec_summary(hosts_view(self.server_config@)),
    {
        render_summary(&self.server_config)
    }

    /// The output files of the loaded mapping: for each host, in
    /// mapping order, the file name `<host>.conf` and the file's full
    /// content — one server block per service, blank-line separated.
    ///
    /// The content is a function of the loaded mapping alone, so
    /// rendering the same mapping twice yields byte-identical files.
    pub fn generate_nginx_config(&self) -> (files: Vec<(String, String)>)
        ensures
            files_view(files@) == spec_render_files(hosts_view(self.server_config@)),
    {
        let mut files: Vec<(String, String)> = Vec::new();
        let mut k: usize = 0;
        while k < self.server_config.len()
            invariant
                0 <= k <= self.server_config@.len(),
                files@.len() == k,
                forall|i: int|
                    0 <= i < k ==> (#[trigger] files@[i]).0@ == hosts_view(
                        self.server_config@,
                    )[i].0 + ".conf"@ && files@[i].1@ == spec_host_file(
                        hosts_view(self.server_config@)[i].1,
                    ),
            decreases self.server_config@.len() - k,
        {
            let mut name = owned(self.server_config[k].0.as_str());
            name.append(".conf");
            let content = render_host_file(&self.server_config[k].1);
            files.push((name, content));
            k += 1;
        }
        proof {
            assert(files_view(files@) =~= spec_render_files(hosts_view(self.server_config@)));
        }
        files
    }
}

} // verus!
