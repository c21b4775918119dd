//! The routes of the service and the URLs they make.

use vstd::prelude::*;

verus! {

/// Where the service lives. Every URL starts with it.
pub const HOST: &'static str = "https://foaas.com";

/// The name of the request header that says which reply is wanted.
pub const ACCEPT: &'static str = "Accept";

/// The value sent under [`ACCEPT`]: the reply is to be JSON.
pub const ACCEPT_JSON: &'static str = "Application/json";

/// A route of the service. Each has a path and takes a fixed number of
/// arguments, from one to three; its URL is the host, the path, and the
/// arguments in their order, each led by a `/`.
#[derive(Clone, Copy, Debug, PartialEq, Eq)]
pub enum Route {
    /// `/absolutely/<company>/<from>`
    Absolutely,
    /// `/anyway/<company>/<from>`
    Anyway,
    /// `/asshole/<from>`
    Asshole,
    /// `/awesome/<from>`
    Awesome,
    /// `/back/<name>/<from>`
    Back,
    /// `/bag/<from>`
    Bag,
    /// `/ballmer/<name>/<company>/<from>`
    Ballmer,
    /// `/bday/<name>/<from>`
    Bday,
    /// `/because/<from>`
    Because,
    /// `/blackadder/<name>/<from>`
    Blackadder,
    /// `/bm/<name>/<from>`
    Bm,
    /// `/bucket/<from>`
    Bucket,
    /// `/bus/<name>/<from>`
    Bus,
    /// `/bye/<from>`
    Bye,
    /// `/caniuse/<tool>/<from>`
    Caniuse,
    /// `/chainsaw/<name>/<from>`
    Chainsaw,
    /// `/cocksplat/<name>/<from>`
    Cocksplat,
    /// `/cool/<from>`
    Cool,
    /// `/cup/<from>`
    Cup,
    /// `/dalton/<name>/<from>`
    Dalton,
    /// `/dense/<from>`
    Dense,
    /// `/deraadt/<name>/<from>`
    Deraadt,
    /// `/diabetes/<from>`
    Diabetes,
    /// `/donut/<name>/<from>`
    Donut,
    /// `/dosomething/<to_do>/<something>/<from>`
    DoSomething,
    /// `/dumbledore/<from>`
    Dumbledore,
    /// `/equity/<name>/<from>`
    Equity,
    /// `/even/<from>`
    Even,
    /// `/everyone/<from>`
    Everyone,
    /// `/everything/<from>`
    Everything,
    /// `/family/<from>`
    Family,
    /// `/fascinating/<from>`
    Fascinating,
    /// `/fewer/<name>/<from>`
    Fewer,
    /// `/field/<name>/<from>/<reference>`
    Field,
    /// `/flying/<from>`
    Flying,
    /// `/ftfy/<from>`
    Ftfy,
    /// `/fts/<name>/<from>`
    Fts,
    /// `/fyyff/<from>`
    Fyyff,
    /// `/gfy/<name>/<from>`
    Gfy,
    /// `/give/<from>`
    Give,
    /// `/greed/<noun>/<from>`
    Greed,
    /// `/holygrail/<from>`
    HolyGrail,
    /// `/horse/<from>`
    Horse,
    /// `/idea/<from>`
    Idea,
    /// `/immensity/<from>`
    Immensity,
    /// `/ing/<name>/<from>`
    Ing,
    /// `/jinglebells/<from>`
    JingleBells,
    /// `/keep/<name>/<from>`
    Keep,
    /// `/keepcalm/<reaction>/<from>`
    KeepCalm,
    /// `/king/<name>/<from>`
    King,
    /// `/legend/<name>/<from>`
    Legend,
    /// `/life/<from>`
    Life,
    /// `/linus/<name>/<from>`
    Linus,
    /// `/logs/<from>`
    Logs,
    /// `/look/<name>/<from>`
    Look,
    /// `/looking/<from>`
    Looking,
    /// `/lowpoly/<from>`
    LowPoly,
    /// `/madison/<name>/<from>`
    Madison,
    /// `/maybe/<from>`
    Maybe,
    /// `/me/<from>`
    Me,
    /// `/mornin/<from>`
    Mornin,
    /// `/no/<from>`
    No,
    /// `/nugget/<name>/<from>`
    Nugget,
    /// `/off/<name>/<from>`
    Off,
    /// `/off-with/<behavior>/<from>`
    OffWith,
    /// `/outside/<name>/<from>`
    Outside,
    /// `/particular/<thing>/<from>`
    Particular,
    /// `/pink/<from>`
    Pink,
    /// `/problem/<name>/<from>`
    Problem,
    /// `/programmer/<from>`
    Programmer,
    /// `/pulp/<language>/<from>`
    Pulp,
    /// `/question/<from>`
    Question,
    /// `/ratsarse/<from>`
    RatsArse,
    /// `/retard/<from>`
    Retard,
    /// `/ridiculous/<from>`
    Ridiculous,
    /// `/rockstar/<name>/<from>`
    Rockstar,
    /// `/rtfm/<from>`
    Rtfm,
    /// `/sake/<from>`
    Sake,
    /// `/shakespeare/<name>/<from>`
    Shakespeare,
    /// `/shit/<from>`
    Shit,
    /// `/shutup/<name>/<from>`
    Shutup,
    /// `/single/<from>`
    Single,
    /// `/thanks/<from>`
    Thanks,
    /// `/that/<from>`
    That,
    /// `/think/<name>/<from>`
    Think,
    /// `/thinking/<name>/<from>`
    Thinking,
    /// `/this/<from>`
    This,
    /// `/thumbs/<name>/<from>`
    Thumbs,
    /// `/too/<from>`
    Too,
    /// `/tucker/<from>`
    Tucker,
    /// `/understand/<name>/<from>`
    Understand,
    /// `/waste/<name>/<from>`
    Waste,
    /// `/what/<from>`
    What,
    /// `/xmas/<name>/<from>`
    Xmas,
    /// `/yeah/<from>`
    Yeah,
    /// `/yoda/<name>/<from>`
    Yoda,
    /// `/you/<name>/<from>`
    You,
    /// `/zayn/<from>`
    Zayn,
    /// `/zero/<from>`
    Zero,
}

impl Route {
    /// The path of the route, between the host and the arguments.
    pub open spec fn spec_path(self) -> Seq<char> {
        match self {
            Route::Absolutely => "absolutely"@,
            Route::Anyway => "anyway"@,
            Route::Asshole => "asshole"@,
            Route::Awesome => "awesome"@,
            Route::Back => "back"@,
            Route::Bag => "bag"@,
            Route::Ballmer => "ballmer"@,
            Route::Bday => "bday"@,
            Route::Because => "because"@,
            Route::Blackadder => "blackadder"@,
            Route::Bm => "bm"@,
            Route::Bucket => "bucket"@,
            Route::Bus => "bus"@,
            Route::Bye => "bye"@,
            Route::Caniuse => "caniuse"@,
            Route::Chainsaw => "chainsaw"@,
            Route::Cocksplat => "cocksplat"@,
            Route::Cool => "cool"@,
            Route::Cup => "cup"@,
            Route::Dalton => "dalton"@,
            Route::Dense => "dense"@,
            Route::Deraadt => "deraadt"@,
            Route::Diabetes => "diabetes"@,
            Route::Donut => "donut"@,
            Route::DoSomething => "dosomething"@,
            Route::Dumbledore => "dumbledore"@,
            Route::Equity => "equity"@,
            Route::Even => "even"@,
            Route::Everyone => "everyone"@,
            Route::Everything => "everything"@,
            Route::Family => "family"@,
            Route::Fascinating => "fascinating"@,
            Route::Fewer => "fewer"@,
            Route::Field => "field"@,
            Route::Flying => "flying"@,
            Route::Ftfy => "ftfy"@,
            Route::Fts => "fts"@,
            Route::Fyyff => "fyyff"@,
            Route::Gfy => "gfy"@,
            Route::Give => "give"@,
            Route::Greed => "greed"@,
            Route::HolyGrail => "holygrail"@,
            Route::Horse => "horse"@,
            Route::Idea => "idea"@,
            Route::Immensity => "immensity"@,
            Route::Ing => "ing"@,
            Route::JingleBells => "jinglebells"@,
            Route::Keep => "keep"@,
            Route::KeepCalm => "keepcalm"@,
            Route::King => "king"@,
            Route::Legend => "legend"@,
            Route::Life => "life"@,
            Route::Linus => "linus"@,
            Route::Logs => "logs"@,
            Route::Look => "look"@,
            Route::Looking => "looking"@,
            Route::LowPoly => "lowpoly"@,
            Route::Madison => "madison"@,
            Route::Maybe => "maybe"@,
            Route::Me => "me"@,
            Route::Mornin => "mornin"@,
            Route::No => "no"@,
            Route::Nugget => "nugget"@,
            Route::Off => "off"@,
            Route::OffWith => "off-with"@,
            Route::Outside => "outside"@,
            Route::Particular => "particular"@,
            Route::Pink => "pink"@,
            Route::Problem => "problem"@,
            Route::Programmer => "programmer"@,
            Route::Pulp => "pulp"@,
            Route::Question => "question"@,
            Route::RatsArse => "ratsarse"@,
            Route::Retard => "retard"@,
            Route::Ridiculous => "ridiculous"@,
            Route::Rockstar => "rockstar"@,
            Route::Rtfm => "rtfm"@,
            Route::Sake => "sake"@,
            Route::Shakespeare => "shakespeare"@,
            Route::Shit => "shit"@,
            Route::Shutup => "shutup"@,
            Route::Single => "single"@,
            Route::Thanks => "thanks"@,
            Route::That => "that"@,
            Route::Think => "think"@,
            Route::Thinking => "thinking"@,
            Route::This => "this"@,
            Route::Thumbs => "thumbs"@,
            Route::Too => "too"@,
            Route::Tucker => "tucker"@,
            Route::Understand => "understand"@,
            Route::Waste => "waste"@,
            Route::What => "what"@,
            Route::Xmas => "xmas"@,
            Route::Yeah => "yeah"@,
            Route::Yoda => "yoda"@,
            Route::You => "you"@,
            Route::Zayn => "zayn"@,
            Route::Zero => "zero"@,
        }
    }

    /// How many arguments the route takes.
    pub open spec fn spec_arity(self) -> nat {
        match self {
            Route::Absolutely => 2,
            Route::Anyway => 2,
            Route::Asshole => 1,
            Route::Awesome => 1,
            Route::Back => 2,
            Route::Bag => 1,
            Route::Ballmer => 3,
            Route::Bday => 2,
            Route::Because => 1,
            Route::Blackadder => 2,
            Route::Bm => 2,
            Route::Bucket => 1,
            Route::Bus => 2,
            Route::Bye => 1,
            Route::Caniuse => 2,
            Route::Chainsaw => 2,
            Route::Cocksplat => 2,
            Route::Cool => 1,
            Route::Cup => 1,
            Route::Dalton => 2,
            Route::Dense => 1,
            Route::Deraadt => 2,
            Route::Diabetes => 1,
            Route::Donut => 2,
            Route::DoSomething => 3,
            Route::Dumbledore => 1,
            Route::Equity => 2,
            Route::Even => 1,
            Route::Everyone => 1,
            Route::Everything => 1,
            Route::Family => 1,
            Route::Fascinating => 1,
            Route::Fewer => 2,
            Route::Field => 3,
            Route::Flying => 1,
            Route::Ftfy => 1,
            Route::Fts => 2,
            Route::Fyyff => 1,
            Route::Gfy => 2,
            Route::Give => 1,
            Route::Greed => 2,
            Route::HolyGrail => 1,
            Route::Horse => 1,
            Route::Idea => 1,
            Route::Immensity => 1,
            Route::Ing => 2,
            Route::JingleBells => 1,
            Route::Keep => 2,
            Route::KeepCalm => 2,
            Route::King => 2,
            Route::Legend => 2,
            Route::Life => 1,
            Route::Linus => 2,
            Route::Logs => 1,
            Route::Look => 2,
            Route::Looking => 1,
            Route::LowPoly => 1,
            Route::Madison => 2,
            Route::Maybe => 1,
            Route::Me => 1,
            Route::Mornin => 1,
            Route::No => 1,
            Route::Nugget => 2,
            Route::Off => 2,
            Route::OffWith => 2,
            Route::Outside => 2,
            Route::Particular => 2,
            Route::Pink => 1,
            Route::Problem => 2,
            Route::Programmer => 1,
            Route::Pulp => 2,
            Route::Question => 1,
            Route::RatsArse => 1,
            Route::Retard => 1,
            Route::Ridiculous => 1,
            Route::Rockstar => 2,
            Route::Rtfm => 1,
            Route::Sake => 1,
            Route::Shakespeare => 2,
            Route::Shit => 1,
            Route::Shutup => 2,
            Route::Single => 1,
            Route::Thanks => 1,
            Route::That => 1,
            Route::Think => 2,
            Route::Thinking => 2,
            Route::This => 1,
            Route::Thumbs => 2,
            Route::Too => 1,
            Route::Tucker => 1,
            Route::Understand => 2,
            Route::Waste => 2,
            Route::What => 1,
            Route::Xmas => 2,
            Route::Yeah => 1,
            Route::Yoda => 2,
            Route::You => 2,
            Route::Zayn => 1,
            Route::Zero => 1,
        }
    }

    /// The path of the route.
    pub fn path(&self) -> (path: &'static str)
        ensures
            path@ == self.spec_path(),
    {
        match self {
            Route::Absolutely => "absolutely",
            Route::Anyway => "anyway",
            Route::Asshole => "asshole",
            Route::Awesome => "awesome",
            Route::Back => "back",
            Route::Bag => "bag",
            Route::Ballmer => "ballmer",
            Route::Bday => "bday",
            Route::Because => "because",
            Route::Blackadder => "blackadder",
            Route::Bm => "bm",
            Route::Bucket => "bucket",
            Route::Bus => "bus",
            Route::Bye => "bye",
            Route::Caniuse => "caniuse",
            Route::Chainsaw => "chainsaw",
            Route::Cocksplat => "cocksplat",
            Route::Cool => "cool",
            Route::Cup => "cup",
            Route::Dalton => "dalton",
            Route::Dense => "dense",
            Route::Deraadt => "deraadt",
            Route::Diabetes => "diabetes",
            Route::Donut => "donut",
            Route::DoSomething => "dosomething",
            Route::Dumbledore => "dumbledore",
            Route::Equity => "equity",
            Route::Even => "even",
            Route::Everyone => "everyone",
            Route::Everything => "everything",
            Route::Family => "family",
            Route::Fascinating => "fascinating",
            Route::Fewer => "fewer",
            Route::Field => "field",
            Route::Flying => "flying",
            Route::Ftfy => "ftfy",
            Route::Fts => "fts",
            Route::Fyyff => "fyyff",
            Route::Gfy => "gfy",
            Route::Give => "give",
            Route::Greed => "greed",
            Route::HolyGrail => "holygrail",
            Route::Horse => "horse",
            Route::Idea => "idea",
            Route::Immensity => "immensity",
            Route::Ing => "ing",
            Route::JingleBells => "jinglebells",
            Route::Keep => "keep",
            Route::KeepCalm => "keepcalm",
            Route::King => "king",
            Route::Legend => "legend",
            Route::Life => "life",
            Route::Linus => "linus",
            Route::Logs => "logs",
            Route::Look => "look",
            Route::Looking => "looking",
            Route::LowPoly => "lowpoly",
            Route::Madison => "madison",
            Route::Maybe => "maybe",
            Route::Me => "me",
            Route::Mornin => "mornin",
            Route::No => "no",
            Route::Nugget => "nugget",
            Route::Off => "off",
            Route::OffWith => "off-with",
            Route::Outside => "outside",
            Route::Particular => "particular",
            Route::Pink => "pink",
            Route::Problem => "problem",
            Route::Programmer => "programmer",
            Route::Pulp => "pulp",
            Route::Question => "question",
            Route::RatsArse => "ratsarse",
            Route::Retard => "retard",
            Route::Ridiculous => "ridiculous",
            Route::Rockstar => "rockstar",
            Route::Rtfm => "rtfm",
            Route::Sake => "sake",
            Route::Shakespeare => "shakespeare",
            Route::Shit => "shit",
            Route::Shutup => "shutup",
            Route::Single => "single",
            Route::Thanks => "thanks",
            Route::That => "that",
            Route::Think => "think",
            Route::Thinking => "thinking",
            Route::This => "this",
            Route::Thumbs => "thumbs",
            Route::Too => "too",
            Route::Tucker => "tucker",
            Route::Understand => "understand",
            Route::Waste => "waste",
            Route::What => "what",
            Route::Xmas => "xmas",
            Route::Yeah => "yeah",
            Route::Yoda => "yoda",
            Route::You => "you",
            Route::Zayn => "zayn",
            Route::Zero => "zero",
        }
    }

    /// How many arguments the route takes.
    pub fn arity(&self) -> (arity: usize)
        ensures
            arity == self.spec_arity(),
            1 <= arity <= 3,
    {
        match self {
            Route::Absolutely => 2,
            Route::Anyway => 2,
            Route::Asshole => 1,
            Route::Awesome => 1,
            Route::Back => 2,
            Route::Bag => 1,
            Route::Ballmer => 3,
            Route::Bday => 2,
            Route::Because => 1,
            Route::Blackadder => 2,
            Route::Bm => 2,
            Route::Bucket => 1,
            Route::Bus => 2,
            Route::Bye => 1,
            Route::Caniuse => 2,
            Route::Chainsaw => 2,
            Route::Cocksplat => 2,
            Route::Cool => 1,
            Route::Cup => 1,
            Route::Dalton => 2,
            Route::Dense => 1,
            Route::Deraadt => 2,
            Route::Diabetes => 1,
            Route::Donut => 2,
            Route::DoSomething => 3,
            Route::Dumbledore => 1,
            Route::Equity => 2,
            Route::Even => 1,
            Route::Everyone => 1,
            Route::Everything => 1,
            Route::Family => 1,
            Route::Fascinating => 1,
            Route::Fewer => 2,
            Route::Field => 3,
            Route::Flying => 1,
            Route::Ftfy => 1,
            Route::Fts => 2,
            Route::Fyyff => 1,
            Route::Gfy => 2,
            Route::Give => 1,
            Route::Greed => 2,
            Route::HolyGrail => 1,
            Route::Horse => 1,
            Route::Idea => 1,
            Route::Immensity => 1,
            Route::Ing => 2,
            Route::JingleBells => 1,
            Route::Keep => 2,
            Route::KeepCalm => 2,
            Route::King => 2,
            Route::Legend => 2,
            Route::Life => 1,
            Route::Linus => 2,
            Route::Logs => 1,
            Route::Look => 2,
            Route::Looking => 1,
            Route::LowPoly => 1,
            Route::Madison => 2,
            Route::Maybe => 1,
            Route::Me => 1,
            Route::Mornin => 1,
            Route::No => 1,
            Route::Nugget => 2,
            Route::Off => 2,
            Route::OffWith => 2,
            Route::Outside => 2,
            Route::Particular => 2,
            Route::Pink => 1,
            Route::Problem => 2,
            Route::Programmer => 1,
            Route::Pulp => 2,
            Route::Question => 1,
            Route::RatsArse => 1,
            Route::Retard => 1,
            Route::Ridiculous => 1,
            Route::Rockstar => 2,
            Route::Rtfm => 1,
            Route::Sake => 1,
            Route::Shakespeare => 2,
            Route::Shit => 1,
            Route::Shutup => 2,
            Route::Single => 1,
            Route::Thanks => 1,
            Route::That => 1,
            Route::Think => 2,
            Route::Thinking => 2,
            Route::This => 1,
            Route::Thumbs => 2,
            Route::Too => 1,
            Route::Tucker => 1,
            Route::Understand => 2,
            Route::Waste => 2,
            Route::What => 1,
            Route::Xmas => 2,
            Route::Yeah => 1,
            Route::Yoda => 2,
            Route::You => 2,
            Route::Zayn => 1,
            Route::Zero => 1,
        }
    }

    /// The URL of the route for `args`, or `None` where `args` are not as
    /// many as the route takes.
    pub fn url(&self, args: &[&str]) -> (url: Option<String>)
        ensures
            url is Some <==> args@.len() == self.spec_arity(),
            url matches Some(found) ==> found@ == address(self.spec_path(), texts(args@)),
    {
        if args.len() == self.arity() {
            Some(render(self.path(), args))
        } else {
            None
        }
    }
}

/// The arguments of a call as plain text.
pub open spec fn texts(args: Seq<&str>) -> Seq<Seq<char>> {
    args.map_values(|arg: &str| arg@)
}

/// The tail of a URL: each argument in turn, led by a `/`.
pub open spec fn segments(args: Seq<Seq<char>>) -> Seq<char>
    decreases args.len(),
{
    if args.len() == 0 {
        Seq::empty()
    } else {
        segments(args.drop_last()) + "/"@ + args.last()
    }
}

/// The URL for a path and its arguments. The arguments go in as they are:
/// nothing in them is escaped.
pub open spec fn address(path: Seq<char>, args: Seq<Seq<char>>) -> Seq<char> {
    HOST@ + "/"@ + path + segments(args)
}

/// One more argument adds one more segment at the end.
pub proof fn lemma_segments_push(args: Seq<Seq<char>>, arg: Seq<char>)
    ensures
        segments(args.push(arg)) == segments(args) + "/"@ + arg,
{
    assert(args.push(arg).drop_last() =~= args);
}

/// The segments of two runs of arguments, one after the other, are the
/// segments of the first followed by those of the second.
pub proof fn lemma_segments_concat(front: Seq<Seq<char>>, back: Seq<Seq<char>>)
    ensures
        segments(front + back) == segments(front) + segments(back),
    decreases back.len(),
{
    if back.len() > 0 {
        lemma_segments_concat(front, back.drop_last());
        lemma_segments_push(front + back.drop_last(), back.last());
        assert((front + back.drop_last()).push(back.last()) =~= front + back);
    }
}

/// Arguments keep their order and none is left out: in the URL, the
/// `i`-th argument follows the URL of those before it and a `/`, and is
/// followed by the segments of those after it.
pub proof fn law_arguments_in_order(path: Seq<char>, args: Seq<Seq<char>>, i: int)
    requires
        0 <= i < args.len(),
    ensures
        address(path, args) == address(path, args.take(i)) + "/"@ + args[i] + segments(
            args.skip(i + 1),
        ),
{
    let before = args.take(i);
    let after = args.skip(i + 1);
    assert(args =~= before.push(args[i]) + after);
    lemma_segments_concat(before.push(args[i]), after);
    lemma_segments_push(before, args[i]);
}

/// With three arguments the URL reads host, `/`, path, `/`, first, `/`,
/// second, `/`, third.
pub proof fn law_three_arguments(
    path: Seq<char>,
    first: Seq<char>,
    second: Seq<char>,
    third: Seq<char>,
)
    ensures
        address(path, seq![first, second, third]) == HOST@ + "/"@ + path + "/"@ + first + "/"@
            + second + "/"@ + third,
{
    let none = Seq::<Seq<char>>::empty();
    lemma_segments_push(none, first);
    lemma_segments_push(none.push(first), second);
    lemma_segments_push(none.push(first).push(second), third);
    assert(none.push(first).push(second).push(third) =~= seq![first, second, third]);
}

/// Builds the URL for `path` and `args`: the host, a `/`, the path, then a
/// `/` and an argument for each argument, in order.
pub fn render(path: &str, args: &[&str]) -> (url: String)
    ensures
        url@ == address(path@, texts(args@)),
{
    let mut url = String::from_str(HOST);
    url.append("/");
    url.append(path);
    let mut i: usize = 0;
    while i < args.len()
        invariant
            i <= args.len(),
            url@ == address(path@, texts(args@).take(i as int)),
        decreases args.len() - i,
    {
        proof {
            let done = texts(args@).take(i as int);
            lemma_segments_push(done, args@[i as int]@);
            assert(texts(args@).take(i + 1) =~= done.push(args@[i as int]@));
        }
        url.append("/");
        url.append(args[i]);
        i += 1;
    }
    assert(texts(args@).take(i as int) =~= texts(args@));
    url
}

} // verus!
