use vstd::prelude::*;

use crate::options::{effective_color, BuildCommand};

verus! {

/// The texts of a sequence of strings.
pub open spec fn texts(v: Seq<String>) -> Seq<Seq<char>> {
    v.map_values(|s: String| s@)
}

/// `token` when the flag is set, nothing otherwise.
pub open spec fn flag(on: bool, token: Seq<char>) -> Seq<Seq<char>> {
    if on {
        seq![token]
    } else {
        Seq::empty()
    }
}

/// The options of the in-container build command: only the skipped or
/// disabled features are spelled out, the color always is.
pub open spec fn cargo_args_spec(o: BuildCommand) -> Seq<Seq<char>> {
    flag(o.no_release, "--no-release"@) + flag(o.no_abi, "--no-abi"@) + flag(
        o.no_embed_abi,
        "--no-embed-abi"@,
    ) + flag(o.no_doc, "--no-doc"@) + seq!["--color"@, effective_color(o).spec_name()]
}

/// Each token preceded by one space.
pub open spec fn spaced(tokens: Seq<Seq<char>>) -> Seq<char>
    decreases tokens.len(),
{
    if tokens.len() == 0 {
        Seq::empty()
    } else {
        spaced(tokens.drop_last()) + " "@ + tokens.last()
    }
}

/// The shell command run inside the container.
pub open spec fn build_script_spec(o: BuildCommand) -> Seq<char> {
    "cd /host && cargo near build"@ + spaced(cargo_args_spec(o))
}

/// The full command line of the container build, program first.
pub open spec fn docker_argv(o: BuildCommand, root: Seq<char>, image: Seq<char>) -> Seq<Seq<char>> {
    seq![
        "docker"@,
        "run"@,
        "--name"@,
        "cargo-near-container"@,
        "-v"@,
        root + ":/host"@,
        "--rm"@,
        "-it"@,
        image,
        "bash"@,
        "-c"@,
        build_script_spec(o),
    ]
}

/// A process launch: the program and its arguments.
#[derive(Clone, Debug)]
pub struct DockerInvocation {
    pub program: String,
    pub args: Vec<String>,
}

impl DockerInvocation {
    /// The command line, program first.
    pub open spec fn argv(self) -> Seq<Seq<char>> {
        seq![self.program@] + texts(self.args@)
    }
}

fn push_token(v: &mut Vec<String>, t: &str)
    ensures
        texts(final(v)@) == texts(old(v)@).push(t@),
{
    v.push(t.to_owned());
    assert(texts(v@) =~= texts(old(v)@).push(t@));
}

/// The options of the in-container build command.
pub fn cargo_args(o: &BuildCommand) -> (r: Vec<String>)
    ensures
        texts(r@) == cargo_args_spec(*o),
{
    let mut r: Vec<String> = Vec::new();
    assert(texts(r@) =~= Seq::<Seq<char>>::empty());
    if o.no_release {
        push_token(&mut r, "--no-release");
    }
    assert(texts(r@) =~= flag(o.no_release, "--no-release"@));
    if o.no_abi {
        push_token(&mut r, "--no-abi");
    }
    assert(texts(r@) =~= flag(o.no_release, "--no-release"@) + flag(o.no_abi, "--no-abi"@));
    if o.no_embed_abi {
        push_token(&mut r, "--no-embed-abi");
    }
    assert(texts(r@) =~= flag(o.no_release, "--no-release"@) + flag(o.no_abi, "--no-abi"@) + flag(
        o.no_embed_abi,
        "--no-embed-abi"@,
    ));
    if o.no_doc {
        push_token(&mut r, "--no-doc");
    }
    push_token(&mut r, "--color");
    let color = match o.color {
        Some(c) => c,
        None => crate::options::ColorPreference::Auto,
    };
    let name = color.name();
    let ghost before = texts(r@);
    r.push(name);
    assert(texts(r@) =~= before.push(effective_color(*o).spec_name()));
    assert(texts(r@) =~= cargo_args_spec(*o));
    r
}

/// The shell command run inside the container: the build command followed
/// by its options.
pub fn build_script(o: &BuildCommand) -> (r: String)
    ensures
        r@ == build_script_spec(*o),
{
    let tokens = cargo_args(o);
    let mut r = "cd /host && cargo near build".to_owned();
    let mut i: usize = 0;
    while i < tokens.len()
        invariant
            i <= tokens@.len(),
            r@ == "cd /host && cargo near build"@ + spaced(texts(tokens@).take(i as int)),
        decreases tokens@.len() - i,
    {
        assert(texts(tokens@).take(i + 1).drop_last() =~= texts(tokens@).take(i as int));
        r.append(" ");
        r.append(tokens[i].as_str());
        assert(r@ =~= "cd /host && cargo near build"@ + spaced(texts(tokens@).take(i + 1)));
        i = i + 1;
    }
    assert(texts(tokens@).take(i as int) =~= texts(tokens@));
    r
}

/// The container build of the project at `root` in the image `image`,
/// mounting the project at `/host`.
pub fn build_invocation(o: &BuildCommand, root: &str, image: &str) -> (r: DockerInvocation)
    ensures
        r.argv() == docker_argv(*o, root@, image@),
{
    let mut volume = root.to_owned();
    volume.append(":/host");
    let mut args: Vec<String> = Vec::new();
    push_token(&mut args, "run");
    push_token(&mut args, "--name");
    push_token(&mut args, "cargo-near-container");
    push_token(&mut args, "-v");
    let ghost before = texts(args@);
    args.push(volume);
    assert(texts(args@) =~= before.push(root@ + ":/host"@));
    push_token(&mut args, "--rm");
    push_token(&mut args, "-it");
    push_token(&mut args, image);
    push_token(&mut args, "bash");
    push_token(&mut args, "-c");
    let script = build_script(o);
    let ghost before = texts(args@);
    args.push(script);
    assert(texts(args@) =~= before.push(build_script_spec(*o)));
    let r = DockerInvocation { program: "docker".to_owned(), args };
    assert(r.argv() =~= docker_argv(*o, root@, image@));
    r
}

} // verus!
