//! Commands as values.
//!
//! The library runs nothing. It says which program is to be run, with
//! which arguments and in which environment; the program runs it.

use vstd::prelude::*;
use vstd::string::*;

verus! {

/// One entry of an argument list.
#[derive(Debug)]
pub enum Arg {
    /// One argument, handed on as it is.
    Plain(String),
    /// A text that is cut into arguments at white space when the command
    /// is run.
    Parsed(String),
}

pub enum ArgView {
    Plain(Seq<char>),
    Parsed(Seq<char>),
}

impl View for Arg {
    type V = ArgView;

    open spec fn view(&self) -> ArgView {
        match self {
            Arg::Plain(s) => ArgView::Plain(s@),
            Arg::Parsed(s) => ArgView::Parsed(s@),
        }
    }
}

/// A command that waits to be run.
#[derive(Debug)]
pub struct Command {
    pub program: String,
    /// Whether the command starts from an empty environment; if not, it
    /// inherits that of the tool.
    pub pure: bool,
    /// The variables that are set on top of that.
    pub env: Vec<(String, String)>,
    pub args: Vec<Arg>,
}

pub struct CommandView {
    pub program: Seq<char>,
    pub pure: bool,
    pub env: Seq<(Seq<char>, Seq<char>)>,
    pub args: Seq<ArgView>,
}

pub open spec fn args_view(args: Seq<Arg>) -> Seq<ArgView> {
    args.map_values(|a: Arg| a@)
}

impl View for Command {
    type V = CommandView;

    open spec fn view(&self) -> CommandView {
        CommandView {
            program: self.program@,
            pure: self.pure,
            env: self.env.deep_view(),
            args: args_view(self.args@),
        }
    }
}

impl CommandView {
    /// A command without arguments that inherits its environment.
    pub open spec fn impure(program: Seq<char>) -> CommandView {
        CommandView {
            program,
            pure: false,
            env: Seq::<(Seq<char>, Seq<char>)>::empty(),
            args: Seq::<ArgView>::empty(),
        }
    }

    /// A command without arguments that starts from an empty environment.
    pub open spec fn pure(program: Seq<char>) -> CommandView {
        CommandView {
            program,
            pure: true,
            env: Seq::<(Seq<char>, Seq<char>)>::empty(),
            args: Seq::<ArgView>::empty(),
        }
    }

    pub open spec fn with_arg(self, arg: Seq<char>) -> CommandView {
        CommandView { args: self.args.push(ArgView::Plain(arg)), ..self }
    }

    pub open spec fn with_parsed_args(self, text: Seq<char>) -> CommandView {
        CommandView { args: self.args.push(ArgView::Parsed(text)), ..self }
    }

    pub open spec fn with_args(self, args: Seq<Seq<char>>) -> CommandView {
        CommandView { args: self.args + args.map_values(|a: Seq<char>| ArgView::Plain(a)), ..self }
    }

    pub open spec fn with_env_vars(self, vars: Seq<(Seq<char>, Seq<char>)>) -> CommandView {
        CommandView { env: self.env + vars, ..self }
    }

    pub open spec fn with_env_var(self, key: Seq<char>, value: Seq<char>) -> CommandView {
        CommandView { env: self.env.push((key, value)), ..self }
    }
}

impl Command {
    /// A command that inherits the environment of the tool.
    pub fn impure(program: &str) -> (r: Self)
        ensures
            r@ == CommandView::impure(program@),
    {
        let r = Self { program: program.to_owned(), pure: false, env: Vec::new(), args: Vec::new() };
        proof {
            assert(r@.env =~= Seq::<(Seq<char>, Seq<char>)>::empty());
            assert(r@.args =~= Seq::<ArgView>::empty());
        }
        r
    }

    /// A command that starts from an empty environment.
    pub fn pure(program: &str) -> (r: Self)
        ensures
            r@ == CommandView::pure(program@),
    {
        let r = Self { program: program.to_owned(), pure: true, env: Vec::new(), args: Vec::new() };
        proof {
            assert(r@.env =~= Seq::<(Seq<char>, Seq<char>)>::empty());
            assert(r@.args =~= Seq::<ArgView>::empty());
        }
        r
    }

    /// The command with one more argument.
    pub fn with_arg(self, arg: &str) -> (r: Self)
        ensures
            r@ == self@.with_arg(arg@),
    {
        let mut args = self.args;
        let ghost before = args_view(args@);
        args.push(Arg::Plain(arg.to_owned()));
        proof {
            assert(args_view(args@) =~= before.push(ArgView::Plain(arg@)));
        }
        Self { program: self.program, pure: self.pure, env: self.env, args }
    }

    /// The command with one more text that is cut into arguments at white
    /// space.
    pub fn with_parsed_args(self, text: &str) -> (r: Self)
        ensures
            r@ == self@.with_parsed_args(text@),
    {
        let mut args = self.args;
        let ghost before = args_view(args@);
        args.push(Arg::Parsed(text.to_owned()));
        proof {
            assert(args_view(args@) =~= before.push(ArgView::Parsed(text@)));
        }
        Self { program: self.program, pure: self.pure, env: self.env, args }
    }

    /// The command with more arguments.
    pub fn with_args(self, more: &Vec<String>) -> (r: Self)
        ensures
            r@ == self@.with_args(more.deep_view()),
    {
        let mut args = self.args;
        let ghost before = args_view(args@);
        let ghost wanted = more.deep_view().map_values(|a: Seq<char>| ArgView::Plain(a));
        let mut i: usize = 0;
        while i < more.len()
            invariant
                i <= more.len(),
                wanted == more.deep_view().map_values(|a: Seq<char>| ArgView::Plain(a)),
                args_view(args@) == before + wanted.take(i as int),
            decreases more.len() - i,
        {
            let ghost sofar = args_view(args@);
            args.push(Arg::Plain(more[i].clone()));
            proof {
                assert(args_view(args@) =~= sofar.push(ArgView::Plain(more[i as int]@)));
            }
            i += 1;
        }
        proof {
            assert(wanted.take(more.len() as int) =~= wanted);
        }
        Self { program: self.program, pure: self.pure, env: self.env, args }
    }

    /// The command with more variables in its environment.
    pub fn with_env_vars(self, vars: Vec<(String, String)>) -> (r: Self)
        ensures
            r@ == self@.with_env_vars(vars.deep_view()),
    {
        let mut env = self.env;
        let ghost before = env.deep_view();
        let mut vars = vars;
        let ghost wanted = vars.deep_view();
        env.append(&mut vars);
        proof {
            assert(env.deep_view() =~= before + wanted);
        }
        Self { program: self.program, pure: self.pure, env, args: self.args }
    }

    /// The command with one more variable in its environment.
    pub fn with_env_var(self, key: &str, value: &str) -> (r: Self)
        ensures
            r@ == self@.with_env_var(key@, value@),
    {
        let mut env = self.env;
        let ghost before = env.deep_view();
        env.push((key.to_owned(), value.to_owned()));
        proof {
            assert(env.deep_view() =~= before.push((key@, value@)));
        }
        Self { program: self.program, pure: self.pure, env, args: self.args }
    }
}

} // verus!
