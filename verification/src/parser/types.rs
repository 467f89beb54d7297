//! Contains types emitted by the main parser.
use vstd::prelude::*;
use vstd::std_specs::convert::{TryFromSpec, TryFromSpecImpl};

verus! {

/// Whether `a` and `b` hold the same characters.
pub fn same_str(a: &str, b: &str) -> (r: bool)
    ensures
        r == (a@ == b@),
{
    let n = a.unicode_len();
    if n != b.unicode_len() {
        return false;
    }
    let mut i: usize = 0;
    while i < n
        invariant
            i <= n,
            n == a@.len(),
            n == b@.len(),
            forall|j: int| 0 <= j < i ==> a@[j] == b@[j],
        decreases n - i,
    {
        if a.get_char(i) != b.get_char(i) {
            return false;
        }
        i += 1;
    }
    assert(a@ =~= b@);
    true
}

#[derive(Debug, PartialEq, Eq, Structural)]
pub enum Command {
    Reload,
}

/// The names of all values of `Command`.
pub open spec fn command_names() -> Seq<&'static str> {
    seq!["reload"]
}

/// The names that `Command::all` lists are exactly the names that convert.
pub proof fn law_command_names(value: &str)
    ensures
        (exists|i: int| 0 <= i < command_names().len() && #[trigger] command_names()[i]@ == value@)
            <==> <Command as TryFromSpec<&str>>::try_from_spec(value) is Ok,
{
    if <Command as TryFromSpec<&str>>::try_from_spec(value) is Ok {
        if value@ == command_names()[0]@ {
            assert(command_names()[0]@ == value@);
        }
    }
}

impl Command {
    /// The names of all commands.
    pub fn all() -> (r: [&'static str; 1])
        ensures
            r@ == command_names(),
    {
        ["reload"]
    }
}

impl<'a> TryFrom<&'a str> for Command {
    type Error = &'static str;

    fn try_from(value: &'a str) -> (r: Result<Self, Self::Error>) {
        if same_str(value, "reload") {
            Ok(Self::Reload)
        } else {
            Err("not a command")
        }
    }
}

impl<'a> TryFromSpecImpl<&'a str> for Command {
    open spec fn obeys_try_from_spec() -> bool {
        true
    }

    open spec fn try_from_spec(value: &'a str) -> Result<Self, &'static str> {
        if value@ == "reload"@ {
            Ok(Self::Reload)
        } else {
            Err("not a command")
        }
    }
}

// ------------------------------------------------------------------------

#[derive(Debug, PartialEq, Eq, Structural)]
pub enum Producer {
    List,
}

/// The names of all values of `Producer`.
pub open spec fn producer_names() -> Seq<&'static str> {
    seq!["list"]
}

/// The names that `Producer::all` lists are exactly the names that convert.
pub proof fn law_producer_names(value: &str)
    ensures
        (exists|i: int| 0 <= i < producer_names().len() && #[trigger] producer_names()[i]@ == value@)
            <==> <Producer as TryFromSpec<&str>>::try_from_spec(value) is Ok,
{
    if <Producer as TryFromSpec<&str>>::try_from_spec(value) is Ok {
        if value@ == producer_names()[0]@ {
            assert(producer_names()[0]@ == value@);
        }
    }
}

impl Producer {
    /// The names of all producers.
    pub fn all() -> (r: [&'static str; 1])
        ensures
            r@ == producer_names(),
    {
        ["list"]
    }
}

impl<'a> TryFrom<&'a str> for Producer {
    type Error = &'static str;

    fn try_from(value: &'a str) -> (r: Result<Self, Self::Error>) {
        if same_str(value, "list") {
            Ok(Self::List)
        } else {
            Err("not a producer")
        }
    }
}

impl<'a> TryFromSpecImpl<&'a str> for Producer {
    open spec fn obeys_try_from_spec() -> bool {
        true
    }

    open spec fn try_from_spec(value: &'a str) -> Result<Self, &'static str> {
        if value@ == "list"@ {
            Ok(Self::List)
        } else {
            Err("not a producer")
        }
    }
}

// ------------------------------------------------------------------------

#[derive(Debug, PartialEq, Eq, Structural)]
pub enum Adapter {
    Confirm,
}

/// The names of all values of `Adapter`.
pub open spec fn adapter_names() -> Seq<&'static str> {
    seq!["confirm"]
}

/// The names that `Adapter::all` lists are exactly the names that convert.
pub proof fn law_adapter_names(value: &str)
    ensures
        (exists|i: int| 0 <= i < adapter_names().len() && #[trigger] adapter_names()[i]@ == value@)
            <==> <Adapter as TryFromSpec<&str>>::try_from_spec(value) is Ok,
{
    if <Adapter as TryFromSpec<&str>>::try_from_spec(value) is Ok {
        if value@ == adapter_names()[0]@ {
            assert(adapter_names()[0]@ == value@);
        }
    }
}

impl Adapter {
    /// The names of all adapters.
    pub fn all() -> (r: [&'static str; 1])
        ensures
            r@ == adapter_names(),
    {
        ["confirm"]
    }
}

impl<'a> TryFrom<&'a str> for Adapter {
    type Error = &'static str;

    fn try_from(value: &'a str) -> (r: Result<Self, Self::Error>) {
        if same_str(value, "confirm") {
            Ok(Self::Confirm)
        } else {
            Err("not an adapter")
        }
    }
}

impl<'a> TryFromSpecImpl<&'a str> for Adapter {
    open spec fn obeys_try_from_spec() -> bool {
        true
    }

    open spec fn try_from_spec(value: &'a str) -> Result<Self, &'static str> {
        if value@ == "confirm"@ {
            Ok(Self::Confirm)
        } else {
            Err("not an adapter")
        }
    }
}

// ------------------------------------------------------------------------

#[derive(Debug, PartialEq, Eq, Structural)]
pub enum Consumer {
    Open,
    Done,
}

/// The names of all values of `Consumer`.
pub open spec fn consumer_names() -> Seq<&'static str> {
    seq!["open", "done"]
}

/// The names that `Consumer::all` lists are exactly the names that convert.
pub proof fn law_consumer_names(value: &str)
    ensures
        (exists|i: int| 0 <= i < consumer_names().len() && #[trigger] consumer_names()[i]@ == value@)
            <==> <Consumer as TryFromSpec<&str>>::try_from_spec(value) is Ok,
{
    if <Consumer as TryFromSpec<&str>>::try_from_spec(value) is Ok {
        if value@ == consumer_names()[0]@ {
            assert(consumer_names()[0]@ == value@);
        }
        if value@ == consumer_names()[1]@ {
            assert(consumer_names()[1]@ == value@);
        }
    }
}

impl Consumer {
    /// The names of all consumers.
    pub fn all() -> (r: [&'static str; 2])
        ensures
            r@ == consumer_names(),
    {
        ["open", "done"]
    }
}

impl<'a> TryFrom<&'a str> for Consumer {
    type Error = &'static str;

    fn try_from(value: &'a str) -> (r: Result<Self, Self::Error>) {
        if same_str(value, "open") {
            Ok(Self::Open)
        } else if same_str(value, "done") {
            Ok(Self::Done)
        } else {
            Err("not a consumer")
        }
    }
}

impl<'a> TryFromSpecImpl<&'a str> for Consumer {
    open spec fn obeys_try_from_spec() -> bool {
        true
    }

    open spec fn try_from_spec(value: &'a str) -> Result<Self, &'static str> {
        if value@ == "open"@ {
            Ok(Self::Open)
        } else if value@ == "done"@ {
            Ok(Self::Done)
        } else {
            Err("not a consumer")
        }
    }
}

// ------------------------------------------------------------------------

pub open spec fn string_view() -> spec_fn(String) -> Seq<char> {
    |s: String| s@
}

#[derive(Debug, PartialEq)]
pub struct ProducerWithArgs {
    pub producer: Producer,
    pub args: Vec<String>,
}

#[derive(Debug, PartialEq)]
pub struct ConsumerWithArgs {
    pub consumer: Consumer,
    pub args: Vec<usize>,
}

#[derive(Debug, PartialEq)]
pub struct AdapterWithArgs {
    pub adapter: Adapter,
    pub args: Vec<String>,
}

#[derive(Debug, PartialEq)]
pub struct ProducerExpr {
    pub producer: ProducerWithArgs,
    pub adapters: Vec<AdapterWithArgs>,
    pub consumer: Option<Consumer>,
}

#[derive(Debug, PartialEq)]
pub enum Parsed {
    Command(Command),
    ProducerExpr(ProducerExpr),
    ConsumerWithArgs(ConsumerWithArgs),
}

/// What a `ProducerWithArgs` holds, with its arguments as character sequences.
pub struct ProducerWithArgsModel {
    pub producer: Producer,
    pub args: Seq<Seq<char>>,
}

/// What a `ConsumerWithArgs` holds, with its arguments as numbers.
pub struct ConsumerWithArgsModel {
    pub consumer: Consumer,
    pub args: Seq<nat>,
}

/// What an `AdapterWithArgs` holds, with its arguments as character sequences.
pub struct AdapterWithArgsModel {
    pub adapter: Adapter,
    pub args: Seq<Seq<char>>,
}

/// What a `ProducerExpr` holds.
pub struct ProducerExprModel {
    pub producer: ProducerWithArgsModel,
    pub adapters: Seq<AdapterWithArgsModel>,
    pub consumer: Option<Consumer>,
}

/// What a `Parsed` holds.
pub enum ParsedModel {
    Command(Command),
    ProducerExpr(ProducerExprModel),
    ConsumerWithArgs(ConsumerWithArgsModel),
}

pub open spec fn producer_with_args_view() -> spec_fn(ProducerWithArgs) -> ProducerWithArgsModel {
    |p: ProducerWithArgs| p@
}

pub open spec fn adapter_with_args_view() -> spec_fn(AdapterWithArgs) -> AdapterWithArgsModel {
    |a: AdapterWithArgs| a@
}

pub open spec fn consumer_with_args_view() -> spec_fn(ConsumerWithArgs) -> ConsumerWithArgsModel {
    |c: ConsumerWithArgs| c@
}

pub open spec fn producer_expr_view() -> spec_fn(ProducerExpr) -> ProducerExprModel {
    |e: ProducerExpr| e@
}

pub open spec fn parsed_view() -> spec_fn(Parsed) -> ParsedModel {
    |p: Parsed| p@
}

impl View for ProducerWithArgs {
    type V = ProducerWithArgsModel;

    open spec fn view(&self) -> ProducerWithArgsModel {
        ProducerWithArgsModel { producer: self.producer, args: self.args@.map_values(string_view()) }
    }
}

impl View for ConsumerWithArgs {
    type V = ConsumerWithArgsModel;

    open spec fn view(&self) -> ConsumerWithArgsModel {
        ConsumerWithArgsModel { consumer: self.consumer, args: self.args@.map_values(|n: usize| n as nat) }
    }
}

impl View for AdapterWithArgs {
    type V = AdapterWithArgsModel;

    open spec fn view(&self) -> AdapterWithArgsModel {
        AdapterWithArgsModel { adapter: self.adapter, args: self.args@.map_values(string_view()) }
    }
}

impl View for ProducerExpr {
    type V = ProducerExprModel;

    open spec fn view(&self) -> ProducerExprModel {
        ProducerExprModel {
            producer: self.producer@,
            adapters: self.adapters@.map_values(adapter_with_args_view()),
            consumer: self.consumer,
        }
    }
}

impl View for Parsed {
    type V = ParsedModel;

    open spec fn view(&self) -> ParsedModel {
        match self {
            Parsed::Command(c) => ParsedModel::Command(*c),
            Parsed::ProducerExpr(e) => ParsedModel::ProducerExpr(e@),
            Parsed::ConsumerWithArgs(c) => ParsedModel::ConsumerWithArgs(c@),
        }
    }
}

} // verus!
