//! The command line: an image, a tag, and any number of `-p` and `-e`
//! options.

use vstd::prelude::*;
use crate::error::UsageError;
use crate::slirp::parse_mapping;
use crate::slirp::PortMapping;
use crate::text::same_text;

verus! {

/// What a command line asks for.
#[derive(Clone, Debug, PartialEq, Eq)]
pub struct Options {
    /// The image to run.
    pub image: String,
    /// The tag of the image.
    pub tag: String,
    /// The ports to forward, in the order given.
    pub ports: Vec<PortMapping>,
    /// The environment settings for the payload, in the order given.
    pub env: Vec<String>,
}

/// Why a command line is not accepted.
#[derive(Clone, Copy, Debug, PartialEq, Eq, Structural)]
pub enum CliError {
    /// There is no image.
    MissingImage,
    /// There is no tag.
    MissingTag,
    /// The argument at this position is no option.
    InvalidArgument { at: usize },
    /// The argument at this position is no port mapping.
    InvalidMapping { at: usize, fault: UsageError },
}

/// What an `Options` says, with its texts as character sequences.
pub struct OptionsView {
    pub image: Seq<char>,
    pub tag: Seq<char>,
    pub ports: Seq<PortMapping>,
    pub env: Seq<Seq<char>>,
}

impl View for Options {
    type V = OptionsView;

    open spec fn view(&self) -> OptionsView {
        OptionsView {
            image: self.image@,
            tag: self.tag@,
            ports: self.ports@,
            env: self.env.deep_view(),
        }
    }
}

/// The options that stand in `args` from position `from` on: each `-p` is
/// followed by a port mapping and each `-e` by an environment setting. A
/// `-p` or `-e` that ends the command line is passed over. The first
/// argument that does not fit is reported.
pub open spec fn options_from(args: Seq<Seq<char>>, from: int) -> Result<
    (Seq<PortMapping>, Seq<Seq<char>>),
    CliError,
>
    decreases args.len() - from,
{
    if from < 0 || from >= args.len() {
        Ok((Seq::empty(), Seq::empty()))
    } else if args[from] != "-p"@ && args[from] != "-e"@ {
        Err(CliError::InvalidArgument { at: from as usize })
    } else if from + 1 >= args.len() {
        Ok((Seq::empty(), Seq::empty()))
    } else if args[from] == "-p"@ {
        match parse_mapping(args[from + 1]) {
            Err(fault) => Err(CliError::InvalidMapping { at: (from + 1) as usize, fault }),
            Ok(mapping) => match options_from(args, from + 2) {
                Ok((ports, env)) => Ok((seq![mapping] + ports, env)),
                Err(error) => Err(error),
            },
        }
    } else {
        match options_from(args, from + 2) {
            Ok((ports, env)) => Ok((ports, seq![args[from + 1]] + env)),
            Err(error) => Err(error),
        }
    }
}

/// What a command line asks for: the image, the tag, and the options that
/// follow them.
pub open spec fn parse_command_line(args: Seq<Seq<char>>) -> Result<OptionsView, CliError> {
    if args.len() < 1 {
        Err(CliError::MissingImage)
    } else if args.len() < 2 {
        Err(CliError::MissingTag)
    } else {
        match options_from(args, 2) {
            Ok((ports, env)) => Ok(OptionsView { image: args[0], tag: args[1], ports, env }),
            Err(error) => Err(error),
        }
    }
}

/// What the options found so far and those still to come add up to.
pub open spec fn with_rest(
    ports: Seq<PortMapping>,
    env: Seq<Seq<char>>,
    rest: Result<(Seq<PortMapping>, Seq<Seq<char>>), CliError>,
) -> Result<(Seq<PortMapping>, Seq<Seq<char>>), CliError> {
    match rest {
        Ok((more_ports, more_env)) => Ok((ports + more_ports, env + more_env)),
        Err(error) => Err(error),
    }
}

/// Reads a command line, without the name of the program.
pub fn parse_args(args: &[String]) -> (parsed: Result<Options, CliError>)
    ensures
        match parsed {
            Ok(options) => parse_command_line(args.deep_view()) == Ok::<OptionsView, CliError>(
                options@,
            ),
            Err(error) => parse_command_line(args.deep_view()) == Err::<OptionsView, CliError>(
                error,
            ),
        },
{
    let ghost texts = args.deep_view();
    if args.len() < 1 {
        return Err(CliError::MissingImage);
    }
    if args.len() < 2 {
        return Err(CliError::MissingTag);
    }
    assert(texts[0] == args@[0]@);
    assert(texts[1] == args@[1]@);
    let mut ports: Vec<PortMapping> = Vec::new();
    let mut env: Vec<String> = Vec::new();
    let mut i: usize = 2;
    while i < args.len()
        invariant
            2 <= i <= args@.len(),
            texts == args.deep_view(),
            options_from(texts, 2) == with_rest(
                ports@,
                env.deep_view(),
                options_from(texts, i as int),
            ),
        decreases args@.len() - i,
    {
        assert(texts[i as int] == args@[i as int]@);
        let is_port = same_text(args[i].as_str(), "-p");
        let is_env = same_text(args[i].as_str(), "-e");
        if !is_port && !is_env {
            return Err(CliError::InvalidArgument { at: i });
        }
        if i + 1 >= args.len() {
            i += 1;
        } else {
            assert(texts[i + 1] == args@[i + 1]@);
            let ghost old_ports = ports@;
            let ghost old_env = env.deep_view();
            let ghost rest = options_from(texts, i + 2);
            if is_port {
                match PortMapping::parse(args[i + 1].as_str()) {
                    Err(fault) => {
                        return Err(CliError::InvalidMapping { at: i + 1, fault });
                    },
                    Ok(mapping) => {
                        ports.push(mapping);
                        proof {
                            if rest is Ok {
                                assert(old_ports + (seq![mapping] + rest->Ok_0.0) =~= old_ports.push(
                                    mapping,
                                ) + rest->Ok_0.0);
                            }
                        }
                    },
                }
            } else {
                env.push(args[i + 1].clone());
                proof {
                    assert(env.deep_view() =~= old_env.push(texts[i + 1]));
                    if rest is Ok {
                        assert(old_env + (seq![texts[i + 1]] + rest->Ok_0.1) =~= old_env.push(
                            texts[i + 1],
                        ) + rest->Ok_0.1);
                    }
                }
            }
            i += 2;
        }
    }
    proof {
        assert(ports@ + Seq::<PortMapping>::empty() == ports@);
        assert(env.deep_view() + Seq::<Seq<char>>::empty() == env.deep_view());
    }
    Ok(Options { image: args[0].clone(), tag: args[1].clone(), ports, env })
}

} // verus!
