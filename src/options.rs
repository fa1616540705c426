use vstd::prelude::*;

verus! {

/// Terminal coloring requested for the build output.
#[derive(Clone, Copy, Debug, PartialEq, Eq, Structural)]
pub enum ColorPreference {
    Auto,
    Always,
    Never,
}

impl ColorPreference {
    /// The command-line spelling of the preference.
    pub open spec fn spec_name(self) -> Seq<char> {
        match self {
            ColorPreference::Auto => "auto"@,
            ColorPreference::Always => "always"@,
            ColorPreference::Never => "never"@,
        }
    }

    pub fn name(&self) -> (r: String)
        ensures
            r@ == self.spec_name(),
    {
        match self {
            ColorPreference::Auto => {
                proof {
                    reveal_strlit("auto");
                }
                "auto".to_owned()
            },
            ColorPreference::Always => {
                proof {
                    reveal_strlit("always");
                }
                "always".to_owned()
            },
            ColorPreference::Never => {
                proof {
                    reveal_strlit("never");
                }
                "never".to_owned()
            },
        }
    }
}

/// The validated build options handed over by the command-line layer.
#[derive(Clone, Debug, Default)]
pub struct BuildCommand {
    /// Build locally, without the container (and so without verification).
    pub no_docker: bool,
    /// Build in debug mode, without optimizations.
    pub no_release: bool,
    /// Do not generate the ABI.
    pub no_abi: bool,
    /// Do not embed the ABI in the contract binary.
    pub no_embed_abi: bool,
    /// Do not include rustdocs in the embedded ABI.
    pub no_doc: bool,
    /// Directory to copy the final artifact to.
    pub out_dir: Option<String>,
    /// Project root; the current working directory when absent.
    pub manifest_path: Option<String>,
    /// Coloring; `Auto` when absent.
    pub color: Option<ColorPreference>,
}

/// The color preference in effect: the requested one, else `Auto`.
pub open spec fn effective_color(o: BuildCommand) -> ColorPreference {
    match o.color {
        Some(c) => c,
        None => ColorPreference::Auto,
    }
}

/// The outcome of a build command run through the command-line layer.
#[derive(Clone, Copy, Debug)]
pub struct BuildCommandlContext;

} // verus!
