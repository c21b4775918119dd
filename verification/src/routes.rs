//! One function for each route, which makes the URL to request.

use crate::endpoint::{address, texts, Route};
use vstd::prelude::*;

verus! {

/// The URL of a route that takes one argument.
fn of_one(route: Route, first: &str) -> (url: String)
    requires
        route.spec_arity() == 1,
    ensures
        url@ == address(route.spec_path(), seq![first@]),
{
    let url = route.url(&[first]);
    assert(texts([first]@) =~= seq![first@]);
    url.unwrap()
}

/// The URL of a route that takes two arguments.
fn of_two(route: Route, first: &str, second: &str) -> (url: String)
    requires
        route.spec_arity() == 2,
    ensures
        url@ == address(route.spec_path(), seq![first@, second@]),
{
    let url = route.url(&[first, second]);
    assert(texts([first, second]@) =~= seq![first@, second@]);
    url.unwrap()
}

/// The URL of a route that takes three arguments.
fn of_three(route: Route, first: &str, second: &str, third: &str) -> (url: String)
    requires
        route.spec_arity() == 3,
    ensures
        url@ == address(route.spec_path(), seq![first@, second@, third@]),
{
    let url = route.url(&[first, second, third]);
    assert(texts([first, second, third]@) =~= seq![first@, second@, third@]);
    url.unwrap()
}

/// The URL of `/absolutely/<company>/<from>`.
pub fn absolutely(company: &str, from: &str) -> (url: String)
    ensures
        url@ == address("absolutely"@, seq![company@, from@]),
{
    of_two(Route::Absolutely, company, from)
}

/// The URL of `/anyway/<company>/<from>`.
pub fn anyway(company: &str, from: &str) -> (url: String)
    ensures
        url@ == address("anyway"@, seq![company@, from@]),
{
    of_two(Route::Anyway, company, from)
}

/// The URL of `/asshole/<from>`.
pub fn asshole(from: &str) -> (url: String)
    ensures
        url@ == address("asshole"@, seq![from@]),
{
    of_one(Route::Asshole, from)
}

/// The URL of `/awesome/<from>`.
pub fn awesome(from: &str) -> (url: String)
    ensures
        url@ == address("awesome"@, seq![from@]),
{
    of_one(Route::Awesome, from)
}

/// The URL of `/back/<name>/<from>`.
pub fn back(name: &str, from: &str) -> (url: String)
    ensures
        url@ == address("back"@, seq![name@, from@]),
{
    of_two(Route::Back, name, from)
}

/// The URL of `/bag/<from>`.
pub fn bag(from: &str) -> (url: String)
    ensures
        url@ == address("bag"@, seq![from@]),
{
    of_one(Route::Bag, from)
}

/// The URL of `/ballmer/<name>/<company>/<from>`.
pub fn ballmer(name: &str, company: &str, from: &str) -> (url: String)
    ensures
        url@ == address("ballmer"@, seq![name@, company@, from@]),
{
    of_three(Route::Ballmer, name, company, from)
}

/// The URL of `/bday/<name>/<from>`.
pub fn bday(name: &str, from: &str) -> (url: String)
    ensures
        url@ == address("bday"@, seq![name@, from@]),
{
    of_two(Route::Bday, name, from)
}

/// The URL of `/because/<from>`.
pub fn because(from: &str) -> (url: String)
    ensures
        url@ == address("because"@, seq![from@]),
{
    of_one(Route::Because, from)
}

/// The URL of `/blackadder/<name>/<from>`.
pub fn blackadder(name: &str, from: &str) -> (url: String)
    ensures
        url@ == address("blackadder"@, seq![name@, from@]),
{
    of_two(Route::Blackadder, name, from)
}

/// The URL of `/bm/<name>/<from>`.
pub fn bm(name: &str, from: &str) -> (url: String)
    ensures
        url@ == address("bm"@, seq![name@, from@]),
{
    of_two(Route::Bm, name, from)
}

/// The URL of `/bucket/<from>`.
pub fn bucket(from: &str) -> (url: String)
    ensures
        url@ == address("bucket"@, seq![from@]),
{
    of_one(Route::Bucket, from)
}

/// The URL of `/bus/<name>/<from>`.
pub fn bus(name: &str, from: &str) -> (url: String)
    ensures
        url@ == address("bus"@, seq![name@, from@]),
{
    of_two(Route::Bus, name, from)
}

/// The URL of `/bye/<from>`.
pub fn bye(from: &str) -> (url: String)
    ensures
        url@ == address("bye"@, seq![from@]),
{
    of_one(Route::Bye, from)
}

/// The URL of `/caniuse/<tool>/<from>`.
pub fn caniuse(tool: &str, from: &str) -> (url: String)
    ensures
        url@ == address("caniuse"@, seq![tool@, from@]),
{
    of_two(Route::Caniuse, tool, from)
}

/// The URL of `/chainsaw/<name>/<from>`.
pub fn chainsaw(name: &str, from: &str) -> (url: String)
    ensures
        url@ == address("chainsaw"@, seq![name@, from@]),
{
    of_two(Route::Chainsaw, name, from)
}

/// The URL of `/cocksplat/<name>/<from>`.
pub fn cocksplat(name: &str, from: &str) -> (url: String)
    ensures
        url@ == address("cocksplat"@, seq![name@, from@]),
{
    of_two(Route::Cocksplat, name, from)
}

/// The URL of `/cool/<from>`.
pub fn cool(from: &str) -> (url: String)
    ensures
        url@ == address("cool"@, seq![from@]),
{
    of_one(Route::Cool, from)
}

/// The URL of `/cup/<from>`.
pub fn cup(from: &str) -> (url: String)
    ensures
        url@ == address("cup"@, seq![from@]),
{
    of_one(Route::Cup, from)
}

/// The URL of `/dalton/<name>/<from>`.
pub fn dalton(name: &str, from: &str) -> (url: String)
    ensures
        url@ == address("dalton"@, seq![name@, from@]),
{
    of_two(Route::Dalton, name, from)
}

/// The URL of `/dense/<from>`.
pub fn dense(from: &str) -> (url: String)
    ensures
        url@ == address("dense"@, seq![from@]),
{
    of_one(Route::Dense, from)
}

/// The URL of `/deraadt/<name>/<from>`.
pub fn deraadt(name: &str, from: &str) -> (url: String)
    ensures
        url@ == address("deraadt"@, seq![name@, from@]),
{
    of_two(Route::Deraadt, name, from)
}

/// The URL of `/diabetes/<from>`.
pub fn diabetes(from: &str) -> (url: String)
    ensures
        url@ == address("diabetes"@, seq![from@]),
{
    of_one(Route::Diabetes, from)
}

/// The URL of `/donut/<name>/<from>`.
pub fn donut(name: &str, from: &str) -> (url: String)
    ensures
        url@ == address("donut"@, seq![name@, from@]),
{
    of_two(Route::Donut, name, from)
}

/// The URL of `/dosomething/<to_do>/<something>/<from>`.
pub fn do_something(to_do: &str, something: &str, from: &str) -> (url: String)
    ensures
        url@ == address("dosomething"@, seq![to_do@, something@, from@]),
{
    of_three(Route::DoSomething, to_do, something, from)
}

/// The URL of `/dumbledore/<from>`.
pub fn dumbledore(from: &str) -> (url: String)
    ensures
        url@ == address("dumbledore"@, seq![from@]),
{
    of_one(Route::Dumbledore, from)
}

/// The URL of `/equity/<name>/<from>`.
pub fn equity(name: &str, from: &str) -> (url: String)
    ensures
        url@ == address("equity"@, seq![name@, from@]),
{
    of_two(Route::Equity, name, from)
}

/// The URL of `/even/<from>`.
pub fn even(from: &str) -> (url: String)
    ensures
        url@ == address("even"@, seq![from@]),
{
    of_one(Route::Even, from)
}

/// The URL of `/everyone/<from>`.
pub fn everyone(from: &str) -> (url: String)
    ensures
        url@ == address("everyone"@, seq![from@]),
{
    of_one(Route::Everyone, from)
}

/// The URL of `/everything/<from>`.
pub fn everything(from: &str) -> (url: String)
    ensures
        url@ == address("everything"@, seq![from@]),
{
    of_one(Route::Everything, from)
}

/// The URL of `/family/<from>`.
pub fn family(from: &str) -> (url: String)
    ensures
        url@ == address("family"@, seq![from@]),
{
    of_one(Route::Family, from)
}

/// The URL of `/fascinating/<from>`.
pub fn fascinating(from: &str) -> (url: String)
    ensures
        url@ == address("fascinating"@, seq![from@]),
{
    of_one(Route::Fascinating, from)
}

/// The URL of `/fewer/<name>/<from>`.
pub fn fewer(name: &str, from: &str) -> (url: String)
    ensures
        url@ == address("fewer"@, seq![name@, from@]),
{
    of_two(Route::Fewer, name, from)
}

/// The URL of `/field/<name>/<from>/<reference>`.
pub fn field(name: &str, from: &str, reference: &str) -> (url: String)
    ensures
        url@ == address("field"@, seq![name@, from@, reference@]),
{
    of_three(Route::Field, name, from, reference)
}

/// The URL of `/flying/<from>`.
pub fn flying(from: &str) -> (url: String)
    ensures
        url@ == address("flying"@, seq![from@]),
{
    of_one(Route::Flying, from)
}

/// The URL of `/ftfy/<from>`.
pub fn ftfy(from: &str) -> (url: String)
    ensures
        url@ == address("ftfy"@, seq![from@]),
{
    of_one(Route::Ftfy, from)
}

/// The URL of `/fts/<name>/<from>`.
pub fn fts(name: &str, from: &str) -> (url: String)
    ensures
        url@ == address("fts"@, seq![name@, from@]),
{
    of_two(Route::Fts, name, from)
}

/// The URL of `/fyyff/<from>`.
pub fn fyyff(from: &str) -> (url: String)
    ensures
        url@ == address("fyyff"@, seq![from@]),
{
    of_one(Route::Fyyff, from)
}

/// The URL of `/gfy/<name>/<from>`.
pub fn gfy(name: &str, from: &str) -> (url: String)
    ensures
        url@ == address("gfy"@, seq![name@, from@]),
{
    of_two(Route::Gfy, name, from)
}

/// The URL of `/give/<from>`.
pub fn give(from: &str) -> (url: String)
    ensures
        url@ == address("give"@, seq![from@]),
{
    of_one(Route::Give, from)
}

/// The URL of `/greed/<noun>/<from>`.
pub fn greed(noun: &str, from: &str) -> (url: String)
    ensures
        url@ == address("greed"@, seq![noun@, from@]),
{
    of_two(Route::Greed, noun, from)
}

/// The URL of `/holygrail/<from>`.
pub fn holy_grail(from: &str) -> (url: String)
    ensures
        url@ == address("holygrail"@, seq![from@]),
{
    of_one(Route::HolyGrail, from)
}

/// The URL of `/horse/<from>`.
pub fn horse(from: &str) -> (url: String)
    ensures
        url@ == address("horse"@, seq![from@]),
{
    of_one(Route::Horse, from)
}

/// The URL of `/idea/<from>`.
pub fn idea(from: &str) -> (url: String)
    ensures
        url@ == address("idea"@, seq![from@]),
{
    of_one(Route::Idea, from)
}

/// The URL of `/immensity/<from>`.
pub fn immensity(from: &str) -> (url: String)
    ensures
        url@ == address("immensity"@, seq![from@]),
{
    of_one(Route::Immensity, from)
}

/// The URL of `/ing/<name>/<from>`.
pub fn ing(name: &str, from: &str) -> (url: String)
    ensures
        url@ == address("ing"@, seq![name@, from@]),
{
    of_two(Route::Ing, name, from)
}

/// The URL of `/jinglebells/<from>`.
pub fn jingle_bells(from: &str) -> (url: String)
    ensures
        url@ == address("jinglebells"@, seq![from@]),
{
    of_one(Route::JingleBells, from)
}

/// The URL of `/keep/<name>/<from>`.
pub fn keep(name: &str, from: &str) -> (url: String)
    ensures
        url@ == address("keep"@, seq![name@, from@]),
{
    of_two(Route::Keep, name, from)
}

/// The URL of `/keepcalm/<reaction>/<from>`.
pub fn keep_calm(reaction: &str, from: &str) -> (url: String)
    ensures
        url@ == address("keepcalm"@, seq![reaction@, from@]),
{
    of_two(Route::KeepCalm, reaction, from)
}

/// The URL of `/king/<name>/<from>`.
pub fn king(name: &str, from: &str) -> (url: String)
    ensures
        url@ == address("king"@, seq![name@, from@]),
{
    of_two(Route::King, name, from)
}

/// The URL of `/legend/<name>/<from>`.
pub fn legend(name: &str, from: &str) -> (url: String)
    ensures
        url@ == address("legend"@, seq![name@, from@]),
{
    of_two(Route::Legend, name, from)
}

/// The URL of `/life/<from>`.
pub fn life(from: &str) -> (url: String)
    ensures
        url@ == address("life"@, seq![from@]),
{
    of_one(Route::Life, from)
}

/// The URL of `/linus/<name>/<from>`.
pub fn linus(name: &str, from: &str) -> (url: String)
    ensures
        url@ == address("linus"@, seq![name@, from@]),
{
    of_two(Route::Linus, name, from)
}

/// The URL of `/logs/<from>`.
pub fn logs(from: &str) -> (url: String)
    ensures
        url@ == address("logs"@, seq![from@]),
{
    of_one(Route::Logs, from)
}

/// The URL of `/look/<name>/<from>`.
pub fn look(name: &str, from: &str) -> (url: String)
    ensures
        url@ == address("look"@, seq![name@, from@]),
{
    of_two(Route::Look, name, from)
}

/// The URL of `/looking/<from>`.
pub fn looking(from: &str) -> (url: String)
    ensures
        url@ == address("looking"@, seq![from@]),
{
    of_one(Route::Looking, from)
}

/// The URL of `/lowpoly/<from>`.
pub fn low_poly(from: &str) -> (url: String)
    ensures
        url@ == address("lowpoly"@, seq![from@]),
{
    of_one(Route::LowPoly, from)
}

/// The URL of `/madison/<name>/<from>`.
pub fn madison(name: &str, from: &str) -> (url: String)
    ensures
        url@ == address("madison"@, seq![name@, from@]),
{
    of_two(Route::Madison, name, from)
}

/// The URL of `/maybe/<from>`.
pub fn maybe(from: &str) -> (url: String)
    ensures
        url@ == address("maybe"@, seq![from@]),
{
    of_one(Route::Maybe, from)
}

/// The URL of `/me/<from>`.
pub fn me(from: &str) -> (url: String)
    ensures
        url@ == address("me"@, seq![from@]),
{
    of_one(Route::Me, from)
}

/// The URL of `/mornin/<from>`.
pub fn mornin(from: &str) -> (url: String)
    ensures
        url@ == address("mornin"@, seq![from@]),
{
    of_one(Route::Mornin, from)
}

/// The URL of `/no/<from>`.
pub fn no(from: &str) -> (url: String)
    ensures
        url@ == address("no"@, seq![from@]),
{
    of_one(Route::No, from)
}

/// The URL of `/nugget/<name>/<from>`.
pub fn nugget(name: &str, from: &str) -> (url: String)
    ensures
        url@ == address("nugget"@, seq![name@, from@]),
{
    of_two(Route::Nugget, name, from)
}

/// The URL of `/off/<name>/<from>`.
pub fn off(name: &str, from: &str) -> (url: String)
    ensures
        url@ == address("off"@, seq![name@, from@]),
{
    of_two(Route::Off, name, from)
}

/// The URL of `/off-with/<behavior>/<from>`.
pub fn off_with(behavior: &str, from: &str) -> (url: String)
    ensures
        url@ == address("off-with"@, seq![behavior@, from@]),
{
    of_two(Route::OffWith, behavior, from)
}

/// The URL of `/outside/<name>/<from>`.
pub fn outside(name: &str, from: &str) -> (url: String)
    ensures
        url@ == address("outside"@, seq![name@, from@]),
{
    of_two(Route::Outside, name, from)
}

/// The URL of `/particular/<thing>/<from>`.
pub fn particular(thing: &str, from: &str) -> (url: String)
    ensures
        url@ == address("particular"@, seq![thing@, from@]),
{
    of_two(Route::Particular, thing, from)
}

/// The URL of `/pink/<from>`.
pub fn pink(from: &str) -> (url: String)
    ensures
        url@ == address("pink"@, seq![from@]),
{
    of_one(Route::Pink, from)
}

/// The URL of `/problem/<name>/<from>`.
pub fn problem(name: &str, from: &str) -> (url: String)
    ensures
        url@ == address("problem"@, seq![name@, from@]),
{
    of_two(Route::Problem, name, from)
}

/// The URL of `/programmer/<from>`.
pub fn programmer(from: &str) -> (url: String)
    ensures
        url@ == address("programmer"@, seq![from@]),
{
    of_one(Route::Programmer, from)
}

/// The URL of `/pulp/<language>/<from>`.
pub fn pulp(language: &str, from: &str) -> (url: String)
    ensures
        url@ == address("pulp"@, seq![language@, from@]),
{
    of_two(Route::Pulp, language, from)
}

/// The URL of `/question/<from>`.
pub fn question(from: &str) -> (url: String)
    ensures
        url@ == address("question"@, seq![from@]),
{
    of_one(Route::Question, from)
}

/// The URL of `/ratsarse/<from>`.
pub fn rats_arse(from: &str) -> (url: String)
    ensures
        url@ == address("ratsarse"@, seq![from@]),
{
    of_one(Route::RatsArse, from)
}

/// The URL of `/retard/<from>`.
pub fn retard(from: &str) -> (url: String)
    ensures
        url@ == address("retard"@, seq![from@]),
{
    of_one(Route::Retard, from)
}

/// The URL of `/ridiculous/<from>`.
pub fn ridiculous(from: &str) -> (url: String)
    ensures
        url@ == address("ridiculous"@, seq![from@]),
{
    of_one(Route::Ridiculous, from)
}

/// The URL of `/rockstar/<name>/<from>`.
pub fn rockstar(name: &str, from: &str) -> (url: String)
    ensures
        url@ == address("rockstar"@, seq![name@, from@]),
{
    of_two(Route::Rockstar, name, from)
}

/// The URL of `/rtfm/<from>`.
pub fn rtfm(from: &str) -> (url: String)
    ensures
        url@ == address("rtfm"@, seq![from@]),
{
    of_one(Route::Rtfm, from)
}

/// The URL of `/sake/<from>`.
pub fn sake(from: &str) -> (url: String)
    ensures
        url@ == address("sake"@, seq![from@]),
{
    of_one(Route::Sake, from)
}

/// The URL of `/shakespeare/<name>/<from>`.
pub fn shakespeare(name: &str, from: &str) -> (url: String)
    ensures
        url@ == address("shakespeare"@, seq![name@, from@]),
{
    of_two(Route::Shakespeare, name, from)
}

/// The URL of `/shit/<from>`.
pub fn shit(from: &str) -> (url: String)
    ensures
        url@ == address("shit"@, seq![from@]),
{
    of_one(Route::Shit, from)
}

/// The URL of `/shutup/<name>/<from>`.
pub fn shutup(name: &str, from: &str) -> (url: String)
    ensures
        url@ == address("shutup"@, seq![name@, from@]),
{
    of_two(Route::Shutup, name, from)
}

/// The URL of `/single/<from>`.
pub fn single(from: &str) -> (url: String)
    ensures
        url@ == address("single"@, seq![from@]),
{
    of_one(Route::Single, from)
}

/// The URL of `/thanks/<from>`.
pub fn thanks(from: &str) -> (url: String)
    ensures
        url@ == address("thanks"@, seq![from@]),
{
    of_one(Route::Thanks, from)
}

/// The URL of `/that/<from>`.
pub fn that(from: &str) -> (url: String)
    ensures
        url@ == address("that"@, seq![from@]),
{
    of_one(Route::That, from)
}

/// The URL of `/think/<name>/<from>`.
pub fn think(name: &str, from: &str) -> (url: String)
    ensures
        url@ == address("think"@, seq![name@, from@]),
{
    of_two(Route::Think, name, from)
}

/// The URL of `/thinking/<name>/<from>`.
pub fn thinking(name: &str, from: &str) -> (url: String)
    ensures
        url@ == address("thinking"@, seq![name@, from@]),
{
    of_two(Route::Thinking, name, from)
}

/// The URL of `/this/<from>`.
pub fn this(from: &str) -> (url: String)
    ensures
        url@ == address("this"@, seq![from@]),
{
    of_one(Route::This, from)
}

/// The URL of `/thumbs/<name>/<from>`.
pub fn thumbs(name: &str, from: &str) -> (url: String)
    ensures
        url@ == address("thumbs"@, seq![name@, from@]),
{
    of_two(Route::Thumbs, name, from)
}

/// The URL of `/too/<from>`.
pub fn too(from: &str) -> (url: String)
    ensures
        url@ == address("too"@, seq![from@]),
{
    of_one(Route::Too, from)
}

/// The URL of `/tucker/<from>`.
pub fn tucker(from: &str) -> (url: String)
    ensures
        url@ == address("tucker"@, seq![from@]),
{
    of_one(Route::Tucker, from)
}

/// The URL of `/understand/<name>/<from>`.
pub fn understand(name: &str, from: &str) -> (url: String)
    ensures
        url@ == address("understand"@, seq![name@, from@]),
{
    of_two(Route::Understand, name, from)
}

/// The URL of `/waste/<name>/<from>`.
pub fn waste(name: &str, from: &str) -> (url: String)
    ensures
        url@ == address("waste"@, seq![name@, from@]),
{
    of_two(Route::Waste, name, from)
}

/// The URL of `/what/<from>`.
pub fn what(from: &str) -> (url: String)
    ensures
        url@ == address("what"@, seq![from@]),
{
    of_one(Route::What, from)
}

/// The URL of `/xmas/<name>/<from>`.
pub fn xmas(name: &str, from: &str) -> (url: String)
    ensures
        url@ == address("xmas"@, seq![name@, from@]),
{
    of_two(Route::Xmas, name, from)
}

/// The URL of `/yeah/<from>`.
pub fn yeah(from: &str) -> (url: String)
    ensures
        url@ == address("yeah"@, seq![from@]),
{
    of_one(Route::Yeah, from)
}

/// The URL of `/yoda/<name>/<from>`.
pub fn yoda(name: &str, from: &str) -> (url: String)
    ensures
        url@ == address("yoda"@, seq![name@, from@]),
{
    of_two(Route::Yoda, name, from)
}

/// The URL of `/you/<name>/<from>`.
pub fn you(name: &str, from: &str) -> (url: String)
    ensures
        url@ == address("you"@, seq![name@, from@]),
{
    of_two(Route::You, name, from)
}

/// The URL of `/zayn/<from>`.
pub fn zayn(from: &str) -> (url: String)
    ensures
        url@ == address("zayn"@, seq![from@]),
{
    of_one(Route::Zayn, from)
}

/// The URL of `/zero/<from>`.
pub fn zero(from: &str) -> (url: String)
    ensures
        url@ == address("zero"@, seq![from@]),
{
    of_one(Route::Zero, from)
}

} // verus!
