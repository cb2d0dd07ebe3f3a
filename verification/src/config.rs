//! The parameters of one run of the worker, and the command line made of them.

use vstd::prelude::*;
use crate::log_buffer::texts;
use crate::text::decimal;
use crate::text::decimal_string;

verus! {

/// How the worker binary takes its parameters: the flag that goes before each
/// of them, and the arguments that every run ends with.
#[derive(Debug)]
pub struct ArgTemplate {
    /// The flag before the pool's address.
    pub endpoint_flag: String,
    /// The flag before the worker's name.
    pub worker_flag: String,
    /// The flag before the password.
    pub password_flag: String,
    /// The flag before the number of threads.
    pub threads_flag: String,
    /// The arguments that do not depend on the run.
    pub fixed: Vec<String>,
}

/// The parameters of one run of the worker.
#[derive(Debug)]
pub struct TaskConfig {
    /// The executable to launch.
    pub program: String,
    /// How that executable takes the parameters below.
    pub template: ArgTemplate,
    /// The host of the pool to connect to.
    pub host: String,
    /// The port of the pool.
    pub port: u16,
    /// The name under which the worker signs in.
    pub worker: String,
    /// The password of that name.
    pub password: String,
    /// The number of worker threads.
    pub threads: usize,
}

/// A program and the arguments to launch it with.
#[derive(Debug)]
pub struct Invocation {
    pub program: String,
    pub args: Vec<String>,
}

impl View for Invocation {
    type V = (Seq<char>, Seq<Seq<char>>);

    open spec fn view(&self) -> (Seq<char>, Seq<Seq<char>>) {
        (self.program@, texts(self.args@))
    }
}

impl Default for ArgTemplate {
    /// The flags of xmrig, with the algorithm set to `cn/0` and no donation.
    fn default() -> (template: Self)
        ensures
            template.endpoint_flag@ == "-o"@,
            template.worker_flag@ == "-u"@,
            template.password_flag@ == "-p"@,
            template.threads_flag@ == "-t"@,
            texts(template.fixed@) == seq!["-a"@, "cn/0"@, "--donate-level"@, "0"@],
    {
        let mut fixed: Vec<String> = Vec::new();
        fixed.push(String::from_str("-a"));
        fixed.push(String::from_str("cn/0"));
        fixed.push(String::from_str("--donate-level"));
        fixed.push(String::from_str("0"));
        assert(texts(fixed@) =~= seq!["-a"@, "cn/0"@, "--donate-level"@, "0"@]);
        ArgTemplate {
            endpoint_flag: String::from_str("-o"),
            worker_flag: String::from_str("-u"),
            password_flag: String::from_str("-p"),
            threads_flag: String::from_str("-t"),
            fixed,
        }
    }
}

impl TaskConfig {
    /// The pool's address: host, a colon, and the port in decimal.
    pub open spec fn endpoint_text(&self) -> Seq<char> {
        self.host@ + seq![':'] + decimal(self.port as nat)
    }

    /// The arguments of the worker: pool address, name, password and thread
    /// count, each behind its flag, then the fixed arguments of the template.
    pub open spec fn args_text(&self) -> Seq<Seq<char>> {
        seq![
            self.template.endpoint_flag@,
            self.endpoint_text(),
            self.template.worker_flag@,
            self.worker@,
            self.template.password_flag@,
            self.password@,
            self.template.threads_flag@,
            decimal(self.threads as nat),
        ] + texts(self.template.fixed@)
    }

    /// The pool's address as the worker takes it.
    pub fn endpoint(&self) -> (text: String)
        ensures
            text@ == self.endpoint_text(),
    {
        proof {
            reveal_strlit(":");
        }
        let mut text: String = self.host.clone();
        text.append(":");
        let port: String = decimal_string(self.port as u64);
        text.append(port.as_str());
        assert(text@ =~= self.endpoint_text());
        text
    }

    /// The command line that launches the worker with these parameters.
    pub fn invocation(&self) -> (inv: Invocation)
        ensures
            inv@ == (self.program@, self.args_text()),
    {
        let mut args: Vec<String> = Vec::new();
        args.push(self.template.endpoint_flag.clone());
        args.push(self.endpoint());
        args.push(self.template.worker_flag.clone());
        args.push(self.worker.clone());
        args.push(self.template.password_flag.clone());
        args.push(self.password.clone());
        args.push(self.template.threads_flag.clone());
        args.push(decimal_string(self.threads as u64));
        let ghost head = texts(args@);
        let mut i: usize = 0;
        while i < self.template.fixed.len()
            invariant
                i <= self.template.fixed@.len(),
                texts(args@) == head + texts(self.template.fixed@.subrange(0, i as int)),
            decreases self.template.fixed@.len() - i,
        {
            let ghost before = texts(args@);
            args.push(self.template.fixed[i].clone());
            i = i + 1;
            assert(texts(args@) =~= before.push(self.template.fixed@[i - 1]@));
            assert(texts(self.template.fixed@.subrange(0, i as int)) =~= texts(
                self.template.fixed@.subrange(0, i - 1),
            ).push(self.template.fixed@[i - 1]@));
        }
        assert(texts(args@) =~= self.args_text()) by {
            assert(self.template.fixed@.subrange(0, i as int) =~= self.template.fixed@);
        }
        Invocation { program: self.program.clone(), args }
    }
}

impl Default for TaskConfig {
    /// The xmrig binary in the working directory, four threads, and the
    /// example pool.
    fn default() -> (config: Self)
        ensures
            config.program@ == "./xmrig"@,
            config.template.endpoint_flag@ == "-o"@,
            config.template.worker_flag@ == "-u"@,
            config.template.password_flag@ == "-p"@,
            config.template.threads_flag@ == "-t"@,
            texts(config.template.fixed@) == seq!["-a"@, "cn/0"@, "--donate-level"@, "0"@],
            config.host@ == "pool.example.com"@,
            config.port == 3333,
            config.worker@ == "worker1"@,
            config.password@ == "password"@,
            config.threads == 4,
    {
        TaskConfig {
            program: String::from_str("./xmrig"),
            template: ArgTemplate::default(),
            host: String::from_str("pool.example.com"),
            port: 3333,
            worker: String::from_str("worker1"),
            password: String::from_str("password"),
            threads: 4,
        }
    }
}

} // verus!
