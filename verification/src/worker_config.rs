//! The configuration of a worker that consumes verification jobs from a
//! queue.

use vstd::prelude::*;
use crate::text::{chars_of, first_index_of, lemma_first_index_none, lemma_first_index_of, str_eq, string_of_range};

verus! {

/// Queue names that the worker can consume from.
#[derive(Debug, Clone, Copy, PartialEq, Eq, Structural)]
pub enum Queue {
    /// Verifies any Gmail email, using SMTP.
    SmtpGmail,
    /// Verifies any Yahoo email, using SMTP.
    SmtpYahoo,
    /// Verifies any B2B Hotmail email, using SMTP.
    SmtpHotmailB2B,
    /// Verifies any B2C Hotmail email (@outlook, @live, @hotmail), using SMTP.
    SmtpHotmailB2C,
    /// Verifies any Hotmail email, using SMTP.
    SmtpHotmailAll,
    /// Verifies any email, using SMTP.
    SmtpAll,
    /// Verifies any Yahoo email, using a headless browser.
    HeadlessYahoo,
    /// Verifies any B2C Hotmail email (@outlook, @live, @hotmail), using a headless browser.
    HeadlessHotmailB2C,
    /// Verifies any email, using a headless browser.
    HeadlessAll,
    /// Verifies any email, using the default method.
    All,
}

/// The name of a queue.
pub open spec fn queue_name(q: Queue) -> Seq<char> {
    match q {
        Queue::SmtpGmail => "check.Smtp.gmail"@,
        Queue::SmtpYahoo => "check.Smtp.yahoo"@,
        Queue::SmtpHotmailB2B => "check.Smtp.hotmail.b2b"@,
        Queue::SmtpHotmailB2C => "check.Smtp.hotmail.b2c"@,
        Queue::SmtpHotmailAll => "check.Smtp.hotmail.*"@,
        Queue::SmtpAll => "check.Smtp.*"@,
        Queue::HeadlessYahoo => "check.Headless.yahoo"@,
        Queue::HeadlessHotmailB2C => "check.Headless.hotmail.b2c"@,
        Queue::HeadlessAll => "check.Headless.*"@,
        Queue::All => "check.*"@,
    }
}

/// The queue that a name designates, if any.
pub open spec fn queue_of_name(s: Seq<char>) -> Option<Queue> {
    if s == "check.Smtp.gmail"@ {
        Some(Queue::SmtpGmail)
    } else if s == "check.Smtp.yahoo"@ {
        Some(Queue::SmtpYahoo)
    } else if s == "check.Smtp.hotmail.b2b"@ {
        Some(Queue::SmtpHotmailB2B)
    } else if s == "check.Smtp.hotmail.b2c"@ {
        Some(Queue::SmtpHotmailB2C)
    } else if s == "check.Smtp.hotmail.*"@ {
        Some(Queue::SmtpHotmailAll)
    } else if s == "check.Smtp.*"@ {
        Some(Queue::SmtpAll)
    } else if s == "check.Headless.yahoo"@ {
        Some(Queue::HeadlessYahoo)
    } else if s == "check.Headless.hotmail.b2c"@ {
        Some(Queue::HeadlessHotmailB2C)
    } else if s == "check.Headless.*"@ {
        Some(Queue::HeadlessAll)
    } else if s == "check.*"@ {
        Some(Queue::All)
    } else {
        None
    }
}

impl Queue {
    /// The name of this queue, as it is written in the configuration.
    pub fn to_text(&self) -> (r: String)
        ensures
            r@ == queue_name(*self),
    {
        match self {
            Queue::SmtpGmail => String::from_str("check.Smtp.gmail"),
            Queue::SmtpYahoo => String::from_str("check.Smtp.yahoo"),
            Queue::SmtpHotmailB2B => String::from_str("check.Smtp.hotmail.b2b"),
            Queue::SmtpHotmailB2C => String::from_str("check.Smtp.hotmail.b2c"),
            Queue::SmtpHotmailAll => String::from_str("check.Smtp.hotmail.*"),
            Queue::SmtpAll => String::from_str("check.Smtp.*"),
            Queue::HeadlessYahoo => String::from_str("check.Headless.yahoo"),
            Queue::HeadlessHotmailB2C => String::from_str("check.Headless.hotmail.b2c"),
            Queue::HeadlessAll => String::from_str("check.Headless.*"),
            Queue::All => String::from_str("check.*"),
        }
    }

    /// The queue with this name, if any.
    pub fn from_name(s: &str) -> (r: Option<Queue>)
        ensures
            r == queue_of_name(s@),
    {
        if str_eq(s, "check.Smtp.gmail") {
            Some(Queue::SmtpGmail)
        } else if str_eq(s, "check.Smtp.yahoo") {
            Some(Queue::SmtpYahoo)
        } else if str_eq(s, "check.Smtp.hotmail.b2b") {
            Some(Queue::SmtpHotmailB2B)
        } else if str_eq(s, "check.Smtp.hotmail.b2c") {
            Some(Queue::SmtpHotmailB2C)
        } else if str_eq(s, "check.Smtp.hotmail.*") {
            Some(Queue::SmtpHotmailAll)
        } else if str_eq(s, "check.Smtp.*") {
            Some(Queue::SmtpAll)
        } else if str_eq(s, "check.Headless.yahoo") {
            Some(Queue::HeadlessYahoo)
        } else if str_eq(s, "check.Headless.hotmail.b2c") {
            Some(Queue::HeadlessHotmailB2C)
        } else if str_eq(s, "check.Headless.*") {
            Some(Queue::HeadlessAll)
        } else if str_eq(s, "check.*") {
            Some(Queue::All)
        } else {
            None
        }
    }
}

/// Reading back the name of a queue gives the same queue: the names are
/// distinct and all recognized.
pub proof fn lemma_queue_name_roundtrip(q: Queue)
    ensures
        queue_of_name(queue_name(q)) == Some(q),
{
    reveal_strlit("check.Smtp.gmail");
    reveal_strlit("check.Smtp.yahoo");
    reveal_strlit("check.Smtp.hotmail.b2b");
    reveal_strlit("check.Smtp.hotmail.b2c");
    reveal_strlit("check.Smtp.hotmail.*");
    reveal_strlit("check.Smtp.*");
    reveal_strlit("check.Headless.yahoo");
    reveal_strlit("check.Headless.hotmail.b2c");
    reveal_strlit("check.Headless.*");
    reveal_strlit("check.*");
    match q {
        Queue::SmtpGmail => {

        },
        Queue::SmtpYahoo => {
            assert("check.Smtp.yahoo"@[11] != "check.Smtp.gmail"@[11]);
        },
        Queue::SmtpHotmailB2B => {
            assert("check.Smtp.hotmail.b2b"@.len() != "check.Smtp.gmail"@.len());
            assert("check.Smtp.hotmail.b2b"@.len() != "check.Smtp.yahoo"@.len());
        },
        Queue::SmtpHotmailB2C => {
            assert("check.Smtp.hotmail.b2c"@.len() != "check.Smtp.gmail"@.len());
            assert("check.Smtp.hotmail.b2c"@.len() != "check.Smtp.yahoo"@.len());
            assert("check.Smtp.hotmail.b2c"@[21] != "check.Smtp.hotmail.b2b"@[21]);
        },
        Queue::SmtpHotmailAll => {
            assert("check.Smtp.hotmail.*"@.len() != "check.Smtp.gmail"@.len());
            assert("check.Smtp.hotmail.*"@.len() != "check.Smtp.yahoo"@.len());
            assert("check.Smtp.hotmail.*"@.len() != "check.Smtp.hotmail.b2b"@.len());
            assert("check.Smtp.hotmail.*"@.len() != "check.Smtp.hotmail.b2c"@.len());
        },
        Queue::SmtpAll => {
            assert("check.Smtp.*"@.len() != "check.Smtp.gmail"@.len());
            assert("check.Smtp.*"@.len() != "check.Smtp.yahoo"@.len());
            assert("check.Smtp.*"@.len() != "check.Smtp.hotmail.b2b"@.len());
            assert("check.Smtp.*"@.len() != "check.Smtp.hotmail.b2c"@.len());
            assert("check.Smtp.*"@.len() != "check.Smtp.hotmail.*"@.len());
        },
        Queue::HeadlessYahoo => {
            assert("check.Headless.yahoo"@.len() != "check.Smtp.gmail"@.len());
            assert("check.Headless.yahoo"@.len() != "check.Smtp.yahoo"@.len());
            assert("check.Headless.yahoo"@.len() != "check.Smtp.hotmail.b2b"@.len());
            assert("check.Headless.yahoo"@.len() != "check.Smtp.hotmail.b2c"@.len());
            assert("check.Headless.yahoo"@[6] != "check.Smtp.hotmail.*"@[6]);
            assert("check.Headless.yahoo"@.len() != "check.Smtp.*"@.len());
        },
        Queue::HeadlessHotmailB2C => {
            assert("check.Headless.hotmail.b2c"@.len() != "check.Smtp.gmail"@.len());
            assert("check.Headless.hotmail.b2c"@.len() != "check.Smtp.yahoo"@.len());
            assert("check.Headless.hotmail.b2c"@.len() != "check.Smtp.hotmail.b2b"@.len());
            assert("check.Headless.hotmail.b2c"@.len() != "check.Smtp.hotmail.b2c"@.len());
            assert("check.Headless.hotmail.b2c"@.len() != "check.Smtp.hotmail.*"@.len());
            assert("check.Headless.hotmail.b2c"@.len() != "check.Smtp.*"@.len());
            assert("check.Headless.hotmail.b2c"@.len() != "check.Headless.yahoo"@.len());
        },
        Queue::HeadlessAll => {
            assert("check.Headless.*"@[6] != "check.Smtp.gmail"@[6]);
            assert("check.Headless.*"@[6] != "check.Smtp.yahoo"@[6]);
            assert("check.Headless.*"@.len() != "check.Smtp.hotmail.b2b"@.len());
            assert("check.Headless.*"@.len() != "check.Smtp.hotmail.b2c"@.len());
            assert("check.Headless.*"@.len() != "check.Smtp.hotmail.*"@.len());
            assert("check.Headless.*"@.len() != "check.Smtp.*"@.len());
            assert("check.Headless.*"@.len() != "check.Headless.yahoo"@.len());
            assert("check.Headless.*"@.len() != "check.Headless.hotmail.b2c"@.len());
        },
        Queue::All => {
            assert("check.*"@.len() != "check.Smtp.gmail"@.len());
            assert("check.*"@.len() != "check.Smtp.yahoo"@.len());
            assert("check.*"@.len() != "check.Smtp.hotmail.b2b"@.len());
            assert("check.*"@.len() != "check.Smtp.hotmail.b2c"@.len());
            assert("check.*"@.len() != "check.Smtp.hotmail.*"@.len());
            assert("check.*"@.len() != "check.Smtp.*"@.len());
            assert("check.*"@.len() != "check.Headless.yahoo"@.len());
            assert("check.*"@.len() != "check.Headless.hotmail.b2c"@.len());
            assert("check.*"@.len() != "check.Headless.*"@.len());
        },
    }
}

/// Limits on the number of verifications a worker makes per second, minute,
/// hour and day; None means no limit.
#[derive(Debug, Clone, Copy, PartialEq, Eq, Structural)]
pub struct ThrottleConfig {
    pub max_requests_per_second: Option<u32>,
    pub max_requests_per_minute: Option<u32>,
    pub max_requests_per_hour: Option<u32>,
    pub max_requests_per_day: Option<u32>,
}

/// The message broker the worker consumes from.
#[derive(Debug, Clone)]
pub struct RabbitMQConfig {
    pub url: String,
    /// Queue name to consume messages from.
    pub queue: Queue,
    pub concurrency: u16,
}

/// The database the results are written to.
#[derive(Debug, Clone)]
pub struct DBConfig {
    pub url: String,
}

/// Where the results are sent, if anywhere.
#[derive(Debug, Clone)]
pub struct WebhookConfig {
    pub url: Option<String>,
}

/// The configuration of a worker.
#[derive(Debug, Clone)]
pub struct WorkerConfig {
    /// Name of the worker.
    pub name: String,
    pub rabbitmq: RabbitMQConfig,
    pub throttle: ThrottleConfig,
    pub db: DBConfig,
    pub webhook: WebhookConfig,
}

/// A verification method whose queue a worker consumes.
#[derive(Debug, Clone, Copy, PartialEq, Eq, Structural)]
pub enum WorkerVerifMethod {
    Api,
    Headless,
    Smtp,
}

/// The name of a verification method.
pub open spec fn verif_method_name(m: WorkerVerifMethod) -> Seq<char> {
    match m {
        WorkerVerifMethod::Api => "Api"@,
        WorkerVerifMethod::Headless => "Headless"@,
        WorkerVerifMethod::Smtp => "Smtp"@,
    }
}

/// The verification method a name designates, if any.
pub open spec fn verif_method_of_name(s: Seq<char>) -> Option<WorkerVerifMethod> {
    if s == "Api"@ {
        Some(WorkerVerifMethod::Api)
    } else if s == "Headless"@ {
        Some(WorkerVerifMethod::Headless)
    } else if s == "Smtp"@ {
        Some(WorkerVerifMethod::Smtp)
    } else {
        None
    }
}

impl WorkerVerifMethod {
    /// The name of this method.
    pub fn name(&self) -> (r: String)
        ensures
            r@ == verif_method_name(*self),
    {
        match self {
            WorkerVerifMethod::Api => String::from_str("Api"),
            WorkerVerifMethod::Headless => String::from_str("Headless"),
            WorkerVerifMethod::Smtp => String::from_str("Smtp"),
        }
    }

    /// The method with this name, if any.
    pub fn from_name(s: &str) -> (r: Option<WorkerVerifMethod>)
        ensures
            r == verif_method_of_name(s@),
    {
        if str_eq(s, "Api") {
            Some(WorkerVerifMethod::Api)
        } else if str_eq(s, "Headless") {
            Some(WorkerVerifMethod::Headless)
        } else if str_eq(s, "Smtp") {
            Some(WorkerVerifMethod::Smtp)
        } else {
            None
        }
    }

    /// The queue of this method: `check_email.` and its name.
    pub fn queue_name(&self) -> (r: String)
        ensures
            r@ == "check_email."@ + verif_method_name(*self),
    {
        let name = self.name();
        String::from_str("check_email.").concat(name.as_str())
    }
}

/// The pieces of `s` between the occurrences of `c`, as `str::split` yields
/// them.
pub open spec fn split_pieces(s: Seq<char>, c: char) -> Seq<Seq<char>>
    decreases s.len(),
{
    match first_index_of(s, c) {
        None => seq![s],
        Some(i) => if 0 <= i < s.len() {
            seq![s.subrange(0, i)] + split_pieces(s.subrange(i + 1, s.len() as int), c)
        } else {
            seq![s]
        },
    }
}

/// The pieces of `s` between the occurrences of `c`.
pub fn split_on(s: &str, c: char) -> (r: Vec<String>)
    ensures
        r@.map_values(|p: String| p@) == split_pieces(s@, c),
{
    let v = chars_of(s);
    let n = v.len();
    let mut out: Vec<String> = Vec::new();
    let mut start: usize = 0;
    let mut i: usize = 0;
    proof {
        assert(v@.subrange(0, n as int) =~= v@);
        assert(out@.map_values(|p: String| p@) + split_pieces(v@, c) =~= split_pieces(v@, c));
    }
    while i < n
        invariant
            n == v@.len(),
            v@ == s@,
            start <= i <= n,
            forall|k: int| start <= k < i ==> v@[k] != c,
            out@.map_values(|p: String| p@) + split_pieces(v@.subrange(start as int, n as int), c)
                == split_pieces(v@, c),
        decreases n - i,
    {
        if v[i] == c {
            let ghost rest = v@.subrange(start as int, n as int);
            proof {
                lemma_first_index_of(rest, c, i - start);
                assert(rest.subrange(0, i - start) =~= v@.subrange(start as int, i as int));
                assert(rest.subrange(i - start + 1, rest.len() as int) =~= v@.subrange(
                    i + 1,
                    n as int,
                ));
            }
            let piece = string_of_range(&v, start, i);
            let ghost before = out@.map_values(|p: String| p@);
            out.push(piece);
            assert(out@.map_values(|p: String| p@) =~= before.push(v@.subrange(start as int, i as int)));
            start = i + 1;
        }
        i += 1;
    }
    let ghost rest = v@.subrange(start as int, n as int);
    proof {
        lemma_first_index_none(rest, c);
    }
    let piece = string_of_range(&v, start, n);
    let ghost before = out@.map_values(|p: String| p@);
    out.push(piece);
    assert(out@.map_values(|p: String| p@) =~= before.push(rest));
    assert(v@.subrange(0, n as int) =~= v@);
    out
}

/// The verification methods of a comma-separated list, or `None` when one
/// of its names is not a method.
pub open spec fn verif_methods_spec(list: Seq<char>) -> Option<Seq<WorkerVerifMethod>> {
    let names = split_pieces(list, ',');
    if forall|i: int| 0 <= i < names.len() ==> verif_method_of_name(#[trigger] names[i]) is Some {
        Some(Seq::new(names.len(), |i: int| verif_method_of_name(names[i])->0))
    } else {
        None
    }
}

/// Read the comma-separated list of verification methods a worker serves.
pub fn parse_verif_methods(list: &str) -> (r: Option<Vec<WorkerVerifMethod>>)
    ensures
        match r {
            Some(v) => verif_methods_spec(list@) == Some(v@),
            None => verif_methods_spec(list@) is None,
        },
{
    let names = split_on(list, ',');
    let ghost pieces = split_pieces(list@, ',');
    let mut out: Vec<WorkerVerifMethod> = Vec::new();
    let mut i: usize = 0;
    while i < names.len()
        invariant
            i <= names@.len(),
            names@.map_values(|p: String| p@) == pieces,
            pieces == split_pieces(list@, ','),
            out@.len() == i,
            forall|k: int| 0 <= k < i ==> verif_method_of_name(#[trigger] pieces[k]) == Some(out@[k]),
        decreases names@.len() - i,
    {
        assert(pieces[i as int] == names@[i as int]@);
        match WorkerVerifMethod::from_name(names[i].as_str()) {
            Some(m) => {
                out.push(m);
            },
            None => {
                assert(verif_method_of_name(pieces[i as int]) is None);
                return None;
            },
        }
        i += 1;
    }
    assert(Seq::new(pieces.len(), |k: int| verif_method_of_name(pieces[k])->0) =~= out@);
    Some(out)
}

} // verus!
