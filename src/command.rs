use vstd::prelude::*;
use crate::errors::FlokiError;
use crate::words::{split_whitespace, split_words, strings_view};

verus! {

/// The text of a container invocation: its mounts and environment entries
/// as (left, right) pairs, its raw flags, and the image and shell it starts.
pub struct CommandView {
    pub volumes: Seq<(Seq<char>, Seq<char>)>,
    pub environment: Seq<(Seq<char>, Seq<char>)>,
    pub shell: Seq<char>,
    pub switches: Seq<Seq<char>>,
    pub image: Seq<char>,
}

impl CommandView {
    /// A fresh invocation of `shell` in `image`, with nothing added.
    pub open spec fn fresh(image: Seq<char>, shell: Seq<char>) -> CommandView {
        CommandView {
            volumes: seq![],
            environment: seq![],
            shell: shell,
            switches: seq![],
            image: image,
        }
    }

    /// The same invocation with the mount `host` to `container` added last.
    pub open spec fn with_volume(self, host: Seq<char>, container: Seq<char>) -> CommandView {
        CommandView { volumes: self.volumes.push((host, container)), ..self }
    }

    /// The same invocation with the entry `name` = `value` added last.
    pub open spec fn with_environment(self, name: Seq<char>, value: Seq<char>) -> CommandView {
        CommandView { environment: self.environment.push((name, value)), ..self }
    }

    /// The same invocation with the raw flag text `switch` added last.
    pub open spec fn with_switch(self, switch: Seq<char>) -> CommandView {
        CommandView { switches: self.switches.push(switch), ..self }
    }
}

/// The text of each pair of strings.
pub open spec fn pairs_view(v: Seq<(String, String)>) -> Seq<(Seq<char>, Seq<char>)> {
    v.map_values(|p: (String, String)| (p.0@, p.1@))
}

/// For each pair in order, `flag` and then the pair joined by `sep`.
pub open spec fn pair_args(
    flag: Seq<char>,
    sep: Seq<char>,
    pairs: Seq<(Seq<char>, Seq<char>)>,
) -> Seq<Seq<char>>
    decreases pairs.len(),
{
    if pairs.len() == 0 {
        seq![]
    } else {
        let p = pairs.last();
        pair_args(flag, sep, pairs.drop_last()) + seq![flag, p.0 + sep + p.1]
    }
}

/// `-v host:container` for each mount, in order.
pub open spec fn volume_args(volumes: Seq<(Seq<char>, Seq<char>)>) -> Seq<Seq<char>> {
    pair_args("-v"@, ":"@, volumes)
}

/// `-e name=value` for each environment entry, in order.
pub open spec fn environment_args(environment: Seq<(Seq<char>, Seq<char>)>) -> Seq<Seq<char>> {
    pair_args("-e"@, "="@, environment)
}

/// The words of each raw flag, flag after flag.
pub open spec fn switch_args(switches: Seq<Seq<char>>) -> Seq<Seq<char>>
    decreases switches.len(),
{
    if switches.len() == 0 {
        seq![]
    } else {
        switch_args(switches.drop_last()) + split_words(switches.last())
    }
}

/// The arguments handed to the container runtime to run `command` in the
/// invocation `c`.
pub open spec fn docker_args(c: CommandView, command: Seq<char>) -> Seq<Seq<char>> {
    seq!["run"@, "--rm"@, "-it"@] + volume_args(c.volumes) + environment_args(c.environment)
        + switch_args(c.switches) + seq![c.image, c.shell, "-c"@, command]
}

/// A container invocation under construction. The constructor accepts any
/// image and shell; an empty one is refused only when the arguments are
/// built.
#[derive(Debug, Clone)]
pub struct DockerCommandBuilder {
    volumes: Vec<(String, String)>,
    environment: Vec<(String, String)>,
    shell: String,
    switches: Vec<String>,
    image: String,
}

impl View for DockerCommandBuilder {
    type V = CommandView;

    closed spec fn view(&self) -> CommandView {
        CommandView {
            volumes: pairs_view(self.volumes@),
            environment: pairs_view(self.environment@),
            shell: self.shell@,
            switches: strings_view(self.switches@),
            image: self.image@,
        }
    }
}

fn copy_pair(p: &(String, String)) -> (r: (String, String))
    ensures
        r.0@ == p.0@,
        r.1@ == p.1@,
{
    (p.0.clone(), p.1.clone())
}

fn pair_switches(pairs: &Vec<(String, String)>, flag: &str, sep: &str) -> (r: Vec<String>)
    ensures
        strings_view(r@) == pair_args(flag@, sep@, pairs_view(pairs@)),
{
    let mut out: Vec<String> = Vec::new();
    let mut i: usize = 0;
    while i < pairs.len()
        invariant
            i <= pairs.len(),
            strings_view(out@) == pair_args(flag@, sep@, pairs_view(pairs@.take(i as int))),
        decreases pairs.len() - i,
    {
        let p = &pairs[i];
        let joined = p.0.clone().concat(sep).concat(p.1.as_str());
        let f = String::from_str(flag);
        proof {
            let before = pairs_view(pairs@.take(i as int));
            let after = pairs_view(pairs@.take(i + 1));
            assert(after.drop_last() =~= before);
            assert(after.last() == (p.0@, p.1@));
            assert(strings_view(out@.push(f).push(joined)) =~= strings_view(out@) + seq![
                f@,
                joined@,
            ]);
        }
        out.push(f);
        out.push(joined);
        i = i + 1;
    }
    assert(pairs@.take(pairs.len() as int) =~= pairs@);
    out
}

impl DockerCommandBuilder {
    /// A command that starts `shell` in `image`, with no mount, environment
    /// entry or raw flag.
    pub fn new(image: &str, shell: &str) -> (r: Self)
        ensures
            r@ == CommandView::fresh(image@, shell@),
    {
        let r = DockerCommandBuilder {
            volumes: Vec::new(),
            environment: Vec::new(),
            shell: String::from_str(shell),
            switches: Vec::new(),
            image: String::from_str(image),
        };
        assert(r@.volumes =~= seq![]);
        assert(r@.environment =~= seq![]);
        assert(r@.switches =~= seq![]);
        r
    }

    /// Adds the mount `spec.0` (host) to `spec.1` (container) after the others.
    pub fn add_volume(self, spec: &(String, String)) -> (r: Self)
        ensures
            r@ == self@.with_volume(spec.0@, spec.1@),
    {
        let ghost before = self@;
        let mut b = self;
        let p = copy_pair(spec);
        b.volumes.push(p);
        assert(b@.volumes =~= before.volumes.push((spec.0@, spec.1@)));
        b
    }

    /// Adds the environment entry `spec.0` = `spec.1` after the others.
    pub fn add_environment(self, spec: &(String, String)) -> (r: Self)
        ensures
            r@ == self@.with_environment(spec.0@, spec.1@),
    {
        let ghost before = self@;
        let mut b = self;
        let p = copy_pair(spec);
        b.environment.push(p);
        assert(b@.environment =~= before.environment.push((spec.0@, spec.1@)));
        b
    }

    /// Adds a raw flag text after the others; its words become separate
    /// arguments.
    pub fn add_docker_switch(self, switch: &String) -> (r: Self)
        ensures
            r@ == self@.with_switch(switch@),
    {
        let ghost before = self@;
        let mut b = self;
        b.switches.push(switch.clone());
        assert(b@.switches =~= before.switches.push(switch@));
        b
    }

    /// `-v host:container` for each mount, in order.
    pub fn build_volume_switches(&self) -> (r: Vec<String>)
        ensures
            strings_view(r@) == volume_args(self@.volumes),
    {
        pair_switches(&self.volumes, "-v", ":")
    }

    /// `-e name=value` for each environment entry, in order.
    pub fn build_environment_switches(&self) -> (r: Vec<String>)
        ensures
            strings_view(r@) == environment_args(self@.environment),
    {
        pair_switches(&self.environment, "-e", "=")
    }

    /// The words of each raw flag, flag after flag.
    pub fn build_docker_switches(&self) -> (r: Vec<String>)
        ensures
            strings_view(r@) == switch_args(self@.switches),
    {
        let mut out: Vec<String> = Vec::new();
        let mut i: usize = 0;
        while i < self.switches.len()
            invariant
                i <= self.switches.len(),
                strings_view(out@) == switch_args(strings_view(self.switches@.take(i as int))),
            decreases self.switches.len() - i,
        {
            let mut words = split_whitespace(self.switches[i].as_str());
            proof {
                let before = strings_view(self.switches@.take(i as int));
                let after = strings_view(self.switches@.take(i + 1));
                assert(after.drop_last() =~= before);
                assert(strings_view(out@ + words@) =~= strings_view(out@) + strings_view(words@));
            }
            out.append(&mut words);
            i = i + 1;
        }
        assert(self.switches@.take(self.switches.len() as int) =~= self.switches@);
        out
    }
    /// The arguments for the container runtime that run `subshell_command`
    /// (as one argument) in this invocation; refused when the image or the
    /// shell is empty.
    pub fn docker_arguments(&self, subshell_command: &str) -> (r: Result<Vec<String>, FlokiError>)
        ensures
            self@.image.len() == 0 ==> r matches Err(FlokiError::MissingImage {  }),
            self@.image.len() > 0 && self@.shell.len() == 0 ==> r matches Err(
                FlokiError::MissingShell {  },
            ),
            self@.image.len() > 0 && self@.shell.len() > 0 ==> (r matches Ok(args) && strings_view(
                args@,
            ) == docker_args(self@, subshell_command@)),
    {
        if self.image.as_str().unicode_len() == 0 {
            return Err(FlokiError::MissingImage {  });
        }
        if self.shell.as_str().unicode_len() == 0 {
            return Err(FlokiError::MissingShell {  });
        }
        let mut args: Vec<String> = Vec::new();
        args.push(String::from_str("run"));
        args.push(String::from_str("--rm"));
        args.push(String::from_str("-it"));
        let mut volumes = self.build_volume_switches();
        let mut environment = self.build_environment_switches();
        let mut switches = self.build_docker_switches();
        let ghost head = args@;
        args.append(&mut volumes);
        let ghost after_volumes = args@;
        args.append(&mut environment);
        let ghost after_environment = args@;
        args.append(&mut switches);
        let ghost after_switches = args@;
        args.push(self.image.clone());
        args.push(self.shell.clone());
        args.push(String::from_str("-c"));
        args.push(String::from_str(subshell_command));
        proof {
            assert(strings_view(head) =~= seq!["run"@, "--rm"@, "-it"@]);
            assert(strings_view(after_volumes) =~= strings_view(head) + volume_args(self@.volumes));
            assert(strings_view(after_environment) =~= strings_view(after_volumes)
                + environment_args(self@.environment));
            assert(strings_view(after_switches) =~= strings_view(after_environment) + switch_args(
                self@.switches,
            ));
            assert(strings_view(args@) =~= docker_args(self@, subshell_command@));
        }
        Ok(args)
    }

    /// The mounts, as (host, container) pairs in the order added.
    pub fn volumes(&self) -> (r: &Vec<(String, String)>)
        ensures
            pairs_view(r@) == self@.volumes,
    {
        &self.volumes
    }

    /// The environment entries, as (name, value) pairs in the order added.
    pub fn environment(&self) -> (r: &Vec<(String, String)>)
        ensures
            pairs_view(r@) == self@.environment,
    {
        &self.environment
    }

    /// The raw flag texts in the order added.
    pub fn switches(&self) -> (r: &Vec<String>)
        ensures
            strings_view(r@) == self@.switches,
    {
        &self.switches
    }

    /// The image the container starts from.
    pub fn image(&self) -> (r: &str)
        ensures
            r@ == self@.image,
    {
        self.image.as_str()
    }

    /// The shell started in the container.
    pub fn shell(&self) -> (r: &str)
        ensures
            r@ == self@.shell,
    {
        self.shell.as_str()
    }
}

/// The pair arguments hold, for each pair in the order given, the flag
/// followed by the pair joined by `sep`.
pub proof fn lemma_pair_args(flag: Seq<char>, sep: Seq<char>, pairs: Seq<(Seq<char>, Seq<char>)>)
    ensures
        pair_args(flag, sep, pairs).len() == 2 * pairs.len(),
        forall|i: int|
            0 <= i < pairs.len() ==> pair_args(flag, sep, pairs).subrange(2 * i, 2 * i + 2) == seq![
                flag,
                (#[trigger] pairs[i]).0 + sep + pairs[i].1,
            ],
    decreases pairs.len(),
{
    if pairs.len() > 0 {
        let rest = pairs.drop_last();
        lemma_pair_args(flag, sep, rest);
        let pa = pair_args(flag, sep, pairs);
        let ra = pair_args(flag, sep, rest);
        assert forall|i: int| 0 <= i < pairs.len() implies pa.subrange(2 * i, 2 * i + 2) == seq![
            flag,
            (#[trigger] pairs[i]).0 + sep + pairs[i].1,
        ] by {
            if i < rest.len() {
                assert(rest[i] == pairs[i]);
                assert(pa.subrange(2 * i, 2 * i + 2) =~= ra.subrange(2 * i, 2 * i + 2));
            } else {
                assert(pa.subrange(2 * i, 2 * i + 2) =~= seq![
                    flag,
                    pairs.last().0 + sep + pairs.last().1,
                ]);
            }
        }
    }
}

/// The words of two lists of raw flags, one after the other, are the words
/// of the first list followed by those of the second.
pub proof fn lemma_switch_args_append(a: Seq<Seq<char>>, b: Seq<Seq<char>>)
    ensures
        switch_args(a + b) == switch_args(a) + switch_args(b),
    decreases b.len(),
{
    if b.len() == 0 {
        assert(a + b =~= a);
        assert(switch_args(a) + switch_args(b) =~= switch_args(a));
    } else {
        lemma_switch_args_append(a, b.drop_last());
        assert((a + b).drop_last() =~= a + b.drop_last());
        assert((a + b).last() == b.last());
    }
}

/// Whatever was added, the arguments come in the fixed layout `run --rm -it`,
/// the mounts, the environment entries, the words of the raw flags, then
/// the image, the shell, `-c` and the command; mounts and environment
/// entries each take their two arguments in the order in which they were
/// added.
pub proof fn lemma_argument_layout(c: CommandView, command: Seq<char>)
    ensures
        ({
            let a = docker_args(c, command);
            let v = 2 * c.volumes.len() as int;
            let e = 2 * c.environment.len() as int;
            let w = switch_args(c.switches).len() as int;
            &&& a.len() == 3 + v + e + w + 4
            &&& a.take(3) == seq!["run"@, "--rm"@, "-it"@]
            &&& forall|i: int|
                0 <= i < c.volumes.len() ==> a.subrange(3 + 2 * i, 5 + 2 * i) == seq![
                    "-v"@,
                    (#[trigger] c.volumes[i]).0 + ":"@ + c.volumes[i].1,
                ]
            &&& forall|i: int|
                0 <= i < c.environment.len() ==> a.subrange(3 + v + 2 * i, 5 + v + 2 * i) == seq![
                    "-e"@,
                    (#[trigger] c.environment[i]).0 + "="@ + c.environment[i].1,
                ]
            &&& a.subrange(3 + v + e, 3 + v + e + w) == switch_args(c.switches)
            &&& a.subrange(3 + v + e + w, a.len() as int) == seq![c.image, c.shell, "-c"@, command]
        }),
{
    let a = docker_args(c, command);
    let head: Seq<Seq<char>> = seq!["run"@, "--rm"@, "-it"@];
    let va = volume_args(c.volumes);
    let ea = environment_args(c.environment);
    let sa = switch_args(c.switches);
    let tail: Seq<Seq<char>> = seq![c.image, c.shell, "-c"@, command];
    lemma_pair_args("-v"@, ":"@, c.volumes);
    lemma_pair_args("-e"@, "="@, c.environment);
    assert(a == head + va + ea + sa + tail);
    let v = va.len() as int;
    let e = ea.len() as int;
    let w = sa.len() as int;
    assert(a.take(3) =~= head);
    assert forall|i: int| 0 <= i < c.volumes.len() implies a.subrange(3 + 2 * i, 5 + 2 * i) == seq![
        "-v"@,
        (#[trigger] c.volumes[i]).0 + ":"@ + c.volumes[i].1,
    ] by {
        assert(a.subrange(3 + 2 * i, 5 + 2 * i) =~= va.subrange(2 * i, 2 * i + 2));
    }
    assert forall|i: int| 0 <= i < c.environment.len() implies a.subrange(
        3 + v + 2 * i,
        5 + v + 2 * i,
    ) == seq!["-e"@, (#[trigger] c.environment[i]).0 + "="@ + c.environment[i].1] by {
        assert(a.subrange(3 + v + 2 * i, 5 + v + 2 * i) =~= ea.subrange(2 * i, 2 * i + 2));
    }
    assert(a.subrange(3 + v + e, 3 + v + e + w) =~= sa);
    assert(a.subrange(3 + v + e + w, a.len() as int) =~= tail);
}

/// An added mount, environment entry or raw flag renders after every earlier
/// one of its kind, and leaves the other kinds as they were.
pub proof fn lemma_additions_append(c: CommandView, a: Seq<char>, b: Seq<char>)
    ensures
        volume_args(c.with_volume(a, b).volumes) == volume_args(c.volumes) + seq!["-v"@, a + ":"@ + b],
        environment_args(c.with_volume(a, b).environment) == environment_args(c.environment),
        switch_args(c.with_volume(a, b).switches) == switch_args(c.switches),
        environment_args(c.with_environment(a, b).environment) == environment_args(c.environment)
            + seq!["-e"@, a + "="@ + b],
        volume_args(c.with_environment(a, b).volumes) == volume_args(c.volumes),
        switch_args(c.with_environment(a, b).switches) == switch_args(c.switches),
        switch_args(c.with_switch(a).switches) == switch_args(c.switches) + split_words(a),
        volume_args(c.with_switch(a).volumes) == volume_args(c.volumes),
        environment_args(c.with_switch(a).environment) == environment_args(c.environment),
{
    assert(c.volumes.push((a, b)).drop_last() =~= c.volumes);
    assert(c.environment.push((a, b)).drop_last() =~= c.environment);
    assert(c.switches.push(a).drop_last() =~= c.switches);
}

} // verus!
