//! What a conversion is asked to do: the source and the two command lines.

use vstd::prelude::*;
use vstd::string::StringExecFns;

verus! {

/// A program and the arguments it is started with.
#[derive(Clone, Debug, PartialEq, Eq)]
pub struct CommandLine {
    program: String,
    args: Vec<String>,
}

/// The mathematical content of a [`CommandLine`].
pub struct CommandLineView {
    pub program: Seq<char>,
    pub args: Seq<Seq<char>>,
}

impl View for CommandLine {
    type V = CommandLineView;

    closed spec fn view(&self) -> CommandLineView {
        CommandLineView { program: self.program@, args: self.args.deep_view() }
    }
}

impl CommandLine {
    /// The command line of `program` with `args`.
    pub fn new(program: String, args: Vec<String>) -> (line: CommandLine)
        ensures
            line@ == (CommandLineView { program: program@, args: args.deep_view() }),
    {
        CommandLine { program, args }
    }

    /// The program to start.
    pub fn program(&self) -> (program: &String)
        ensures
            program@ == self@.program,
    {
        &self.program
    }

    /// The arguments handed to the program, in order.
    pub fn args(&self) -> (args: &Vec<String>)
        ensures
            args.deep_view() == self@.args,
    {
        &self.args
    }

    /// A second command line with the same program and arguments.
    pub fn duplicate(&self) -> (copy: CommandLine)
        ensures
            copy@ == self@,
    {
        let mut args: Vec<String> = Vec::new();
        let mut i: usize = 0;
        while i < self.args.len()
            invariant
                i <= self.args.len(),
                args@.len() == i,
                forall|j: int| 0 <= j < i ==> args@[j]@ == self.args@[j]@,
            decreases self.args.len() - i,
        {
            args.push(self.args[i].clone());
            i += 1;
        }
        assert(args.deep_view() =~= self.args.deep_view());
        CommandLine { program: self.program.clone(), args }
    }
}

/// Where the standard input of a started process comes from.
#[derive(Clone, Copy, Debug, PartialEq, Eq)]
pub enum StdinMode {
    /// A pipe whose writing end the orchestrator holds.
    Piped,
    /// The standard input of the embedding program.
    Inherit,
    /// Nothing: reads meet the end of the stream at once.
    Null,
}

/// What the process launcher is asked to start. The standard output and the
/// diagnostic stream of the process are always captured through pipes.
#[derive(Clone, Debug, PartialEq, Eq)]
pub struct Launch {
    pub command: CommandLine,
    pub stdin: StdinMode,
}

/// The mathematical content of a [`Launch`].
pub struct LaunchView {
    pub command: CommandLineView,
    pub stdin: StdinMode,
}

impl View for Launch {
    type V = LaunchView;

    open spec fn view(&self) -> LaunchView {
        LaunchView { command: self.command@, stdin: self.stdin }
    }
}

/// One conversion request. It cannot be changed once constructed.
#[derive(Clone, Debug, PartialEq, Eq)]
pub struct PipelineRequest {
    source: String,
    producer: CommandLine,
    consumer: CommandLine,
}

/// The mathematical content of a [`PipelineRequest`].
pub struct PipelineRequestView {
    pub source: Seq<char>,
    pub producer: CommandLineView,
    pub consumer: CommandLineView,
}

impl View for PipelineRequest {
    type V = PipelineRequestView;

    closed spec fn view(&self) -> PipelineRequestView {
        PipelineRequestView {
            source: self.source@,
            producer: self.producer@,
            consumer: self.consumer@,
        }
    }
}

/// The locator of the video stored under `path`.
pub open spec fn tweet_video_locator(path: Seq<char>) -> Seq<char> {
    "https://video.twimg.com/tweet_video/"@ + path
}

/// The decoder's command line: read `source` and write raw frames, in
/// YUV4MPEG2 framing, to standard output.
pub open spec fn decoder_command(source: Seq<char>) -> CommandLineView {
    CommandLineView {
        program: "ffmpeg"@,
        args: seq!["-i"@, source, "-f"@, "yuv4mpegpipe"@, "-"@],
    }
}

/// The encoder's command line: read frames from standard input and write the
/// animated image to standard output, trading quality for speed.
pub open spec fn encoder_command() -> CommandLineView {
    CommandLineView { program: "gifski"@, args: seq!["--output"@, "-"@, "--fast"@, "-"@] }
}

impl PipelineRequest {
    /// A request that runs `producer` on `source` and pipes it into `consumer`.
    pub fn new(source: String, producer: CommandLine, consumer: CommandLine) -> (request:
        PipelineRequest)
        ensures
            request@ == (PipelineRequestView {
                source: source@,
                producer: producer@,
                consumer: consumer@,
            }),
    {
        PipelineRequest { source, producer, consumer }
    }

    /// The request that converts the video stored under `path`.
    pub fn for_tweet_video(path: &str) -> (request: PipelineRequest)
        ensures
            request@.source == tweet_video_locator(path@),
            request@.producer == decoder_command(tweet_video_locator(path@)),
            request@.consumer == encoder_command(),
    {
        let mut source = String::from_str("https://video.twimg.com/tweet_video/");
        source.append(path);

        let mut decoder_args: Vec<String> = Vec::new();
        decoder_args.push(String::from_str("-i"));
        decoder_args.push(source.clone());
        decoder_args.push(String::from_str("-f"));
        decoder_args.push(String::from_str("yuv4mpegpipe"));
        decoder_args.push(String::from_str("-"));
        assert(decoder_args.deep_view() =~= decoder_command(source@).args);

        let mut encoder_args: Vec<String> = Vec::new();
        encoder_args.push(String::from_str("--output"));
        encoder_args.push(String::from_str("-"));
        encoder_args.push(String::from_str("--fast"));
        encoder_args.push(String::from_str("-"));
        assert(encoder_args.deep_view() =~= encoder_command().args);

        PipelineRequest {
            source,
            producer: CommandLine { program: String::from_str("ffmpeg"), args: decoder_args },
            consumer: CommandLine { program: String::from_str("gifski"), args: encoder_args },
        }
    }

    /// The locator of the input media.
    pub fn source(&self) -> (source: &String)
        ensures
            source@ == self@.source,
    {
        &self.source
    }

    /// The command line of the producer.
    pub fn producer(&self) -> (line: &CommandLine)
        ensures
            line@ == self@.producer,
    {
        &self.producer
    }

    /// The command line of the consumer.
    pub fn consumer(&self) -> (line: &CommandLine)
        ensures
            line@ == self@.consumer,
    {
        &self.consumer
    }
}

} // verus!
