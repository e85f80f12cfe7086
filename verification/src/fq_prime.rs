//! A Pocklington certificate that the BLS12-381 base field modulus is prime.
//!
//! Each prime below is shown prime from a prime factor `q` of its predecessor
//! (`n - 1`) and a witness `a`: the powers `a^(n - 1)` and `a^((n - 1) / q)`
//! modulo `n` are computed one square-and-multiply step at a time, and `r - 1`
//! is shown a unit modulo `n` by a Bezout identity. The two smallest primes
//! are shown prime by trial division.
use vstd::prelude::*;
use vstd::arithmetic::power::*;
use vstd::arithmetic::div_mod::*;
use crate::field::fq_modulus;
use crate::number_theory::is_prime;
use crate::pocklington::{
    lemma_coprime_product_divides, lemma_pocklington, lemma_pocklington_factor, lemma_pow_step,
    lemma_trial_division, no_divisor_in,
};

verus! {

/// The BLS12-381 base field modulus is prime, by Pocklington's criterion on
/// the 234-bit prime factor of `p - 1`.
pub proof fn lemma_prime_fq_modulus()
    ensures
        is_prime(fq_modulus()),
{
    lemma_prime_q234();
    power_fq_modulus_full_0();
    power_fq_modulus_full_1();
    power_fq_modulus_full_2();
    power_fq_modulus_full_3();
    power_fq_modulus_full_4();
    power_fq_modulus_full_5();
    power_fq_modulus_full_6();
    power_fq_modulus_full_7();
    power_fq_modulus_by_q234_0();
    power_fq_modulus_by_q234_1();
    power_fq_modulus_by_q234_2();
    power_fq_modulus_by_q234_3();
    assert forall|d: nat| is_prime(d) && #[trigger] (4002409555221667393417789825735904156556882819939007885332058136124031650490837864442687629129015664037894272559787nat % d) == 0 implies (d - 1) % 15778400344354997994418419698270088123916926905054652752758194827714659int == 0 by {
        lemma_pocklington_factor(4002409555221667393417789825735904156556882819939007885332058136124031650490837864442687629129015664037894272559787nat, 15778400344354997994418419698270088123916926905054652752758194827714659nat, 253663835868735594330404923636534084567099854nat, 2, 3857652229587791131170562170362777322661165158253241750951056708149380781976590789690115968560841332125271833377494int, 2187498333999863193215640476378758310847690922566267545269384146546613166935166697200060931464500123887301765890575int, -2108381890695039412361994553002174205830713821287548444451941585848121714255858692518771174474333949762233000334702int, d);
    }
    assert((15778400344354997994418419698270088123916926905054652752758194827714659nat + 1) * (15778400344354997994418419698270088123916926905054652752758194827714659nat + 1) > 4002409555221667393417789825735904156556882819939007885332058136124031650490837864442687629129015664037894272559787nat) by (nonlinear_arith);
    lemma_pocklington(4002409555221667393417789825735904156556882819939007885332058136124031650490837864442687629129015664037894272559787nat, 15778400344354997994418419698270088123916926905054652752758194827714659nat);
}

/// `15778400344354997994418419698270088123916926905054652752758194827714659` is prime.
proof fn lemma_prime_q234()
    ensures
        is_prime(15778400344354997994418419698270088123916926905054652752758194827714659nat),
{
    lemma_prime_q120();
    power_q234_full_0();
    power_q234_full_1();
    power_q234_full_2();
    power_q234_full_3();
    power_q234_full_4();
    power_q234_by_q120_0();
    power_q234_by_q120_1();
    power_q234_by_q120_2();
    assert forall|d: nat| is_prime(d) && #[trigger] (15778400344354997994418419698270088123916926905054652752758194827714659nat % d) == 0 implies (d - 1) % 1125266252156850182658904441386709967int == 0 by {
        lemma_pocklington_factor(15778400344354997994418419698270088123916926905054652752758194827714659nat, 1125266252156850182658904441386709967nat, 14021926201120671579994175730661374nat, 2, 584602478677671312863650330581164049005241475155695537731613712292485int, 8254959361366692087094521958599552736149856986728481575631050697403242int, -305852912761524340126384807729958336057871492735745874295893113231853int, d);
    }
    assert((1125266252156850182658904441386709967nat + 1) * (1125266252156850182658904441386709967nat + 1) > 15778400344354997994418419698270088123916926905054652752758194827714659nat) by (nonlinear_arith);
    lemma_pocklington(15778400344354997994418419698270088123916926905054652752758194827714659nat, 1125266252156850182658904441386709967nat);
}

/// `1125266252156850182658904441386709967` is prime.
proof fn lemma_prime_q120()
    ensures
        is_prime(1125266252156850182658904441386709967nat),
{
    lemma_prime_q72();
    power_q120_full_0();
    power_q120_full_1();
    power_q120_full_2();
    power_q120_by_q72_0();
    assert forall|d: nat| is_prime(d) && #[trigger] (1125266252156850182658904441386709967nat % d) == 0 implies (d - 1) % 3819663927398918131021int == 0 by {
        lemma_pocklington_factor(1125266252156850182658904441386709967nat, 3819663927398918131021nat, 294598235223046, 2, 569094264676275985966734733593272495int, 363966040104148855705611644974454555int, -184072867699701266872102148000741207int, d);
    }
    assert((3819663927398918131021nat + 1) * (3819663927398918131021nat + 1) > 1125266252156850182658904441386709967nat) by (nonlinear_arith);
    lemma_pocklington(1125266252156850182658904441386709967nat, 3819663927398918131021nat);
}

/// `3819663927398918131021` is prime.
proof fn lemma_prime_q72()
    ensures
        is_prime(3819663927398918131021nat),
{
    lemma_prime_13090036741();
    lemma_prime_755057();
    power_q72_full_0();
    power_q72_full_1();
    power_q72_by_13090036741_0();
    power_q72_by_755057_0();
    power_q72_by_755057_1();
    assert forall|d: nat| is_prime(d) && #[trigger] (3819663927398918131021nat % d) == 0 implies (d - 1) % 9883723871549237 == 0 by {
        lemma_pocklington_factor(3819663927398918131021nat, 13090036741, 291799328220, 2, 2236669622039346762846int, 493108134941997590084int, -288747912583058559999int, d);
        lemma_pocklington_factor(3819663927398918131021nat, 755057, 5058775598926860, 2, 3072291452636436773356int, 1757223884106591266314int, -1413397624011818190689int, d);
        lemma_coprime_product_divides(13090036741, 755057, d - 1);
    }
    assert((9883723871549237nat + 1) * (9883723871549237nat + 1) > 3819663927398918131021nat) by (nonlinear_arith);
    lemma_pocklington(3819663927398918131021nat, 9883723871549237);
}

/// `13090036741` is prime.
proof fn lemma_prime_13090036741()
    ensures
        is_prime(13090036741),
{
    lemma_prime_421987();
    power_13090036741_full_0();
    power_13090036741_by_421987_0();
    assert forall|d: nat| is_prime(d) && #[trigger] (13090036741nat % d) == 0 implies (d - 1) % 421987 == 0 by {
        lemma_pocklington_factor(13090036741, 421987, 31020, 2, 9676538530, 9508339913, -7028843336, d);
    }
    assert((421987nat + 1) * (421987nat + 1) > 13090036741nat) by (nonlinear_arith);
    lemma_pocklington(13090036741, 421987);
}

/// `755057` is prime.
proof fn lemma_prime_755057()
    ensures
        is_prime(755057),
{
    lemma_prime_1151();
    power_755057_full_0();
    power_755057_by_1151_0();
    assert forall|d: nat| is_prime(d) && #[trigger] (755057nat % d) == 0 implies (d - 1) % 1151 == 0 by {
        lemma_pocklington_factor(755057, 1151, 656, 2, 37876, 133209, -6682, d);
    }
    assert((1151nat + 1) * (1151nat + 1) > 755057nat) by (nonlinear_arith);
    lemma_pocklington(755057, 1151);
}

/// `421987` is prime.
proof fn lemma_prime_421987()
    ensures
        is_prime(421987),
{
    lemma_prime_1327();
    power_421987_full_0();
    power_421987_by_1327_0();
    assert forall|d: nat| is_prime(d) && #[trigger] (421987nat % d) == 0 implies (d - 1) % 1327 == 0 by {
        lemma_pocklington_factor(421987, 1327, 318, 2, 172201, 97231, -39677, d);
    }
    assert((1327nat + 1) * (1327nat + 1) > 421987nat) by (nonlinear_arith);
    lemma_pocklington(421987, 1327);
}

/// `1151` is prime, by trial division.
proof fn lemma_prime_1151()
    ensures
        is_prime(1151),
{
    assert(no_divisor_in(1151, 34, 34));
    assert(no_divisor_in(1151, 33, 34));
    assert(no_divisor_in(1151, 32, 34));
    assert(no_divisor_in(1151, 31, 34));
    assert(no_divisor_in(1151, 30, 34));
    assert(no_divisor_in(1151, 29, 34));
    assert(no_divisor_in(1151, 28, 34));
    assert(no_divisor_in(1151, 27, 34));
    assert(no_divisor_in(1151, 26, 34));
    assert(no_divisor_in(1151, 25, 34));
    assert(no_divisor_in(1151, 24, 34));
    assert(no_divisor_in(1151, 23, 34));
    assert(no_divisor_in(1151, 22, 34));
    assert(no_divisor_in(1151, 21, 34));
    assert(no_divisor_in(1151, 20, 34));
    assert(no_divisor_in(1151, 19, 34));
    assert(no_divisor_in(1151, 18, 34));
    assert(no_divisor_in(1151, 17, 34));
    assert(no_divisor_in(1151, 16, 34));
    assert(no_divisor_in(1151, 15, 34));
    assert(no_divisor_in(1151, 14, 34));
    assert(no_divisor_in(1151, 13, 34));
    assert(no_divisor_in(1151, 12, 34));
    assert(no_divisor_in(1151, 11, 34));
    assert(no_divisor_in(1151, 10, 34));
    assert(no_divisor_in(1151, 9, 34));
    assert(no_divisor_in(1151, 8, 34));
    assert(no_divisor_in(1151, 7, 34));
    assert(no_divisor_in(1151, 6, 34));
    assert(no_divisor_in(1151, 5, 34));
    assert(no_divisor_in(1151, 4, 34));
    assert(no_divisor_in(1151, 3, 34));
    assert(no_divisor_in(1151, 2, 34));
    assert((33nat + 1) * (33nat + 1) > 1151nat) by (nonlinear_arith);
    lemma_trial_division(1151, 33);
}

/// `1327` is prime, by trial division.
proof fn lemma_prime_1327()
    ensures
        is_prime(1327),
{
    assert(no_divisor_in(1327, 37, 37));
    assert(no_divisor_in(1327, 36, 37));
    assert(no_divisor_in(1327, 35, 37));
    assert(no_divisor_in(1327, 34, 37));
    assert(no_divisor_in(1327, 33, 37));
    assert(no_divisor_in(1327, 32, 37));
    assert(no_divisor_in(1327, 31, 37));
    assert(no_divisor_in(1327, 30, 37));
    assert(no_divisor_in(1327, 29, 37));
    assert(no_divisor_in(1327, 28, 37));
    assert(no_divisor_in(1327, 27, 37));
    assert(no_divisor_in(1327, 26, 37));
    assert(no_divisor_in(1327, 25, 37));
    assert(no_divisor_in(1327, 24, 37));
    assert(no_divisor_in(1327, 23, 37));
    assert(no_divisor_in(1327, 22, 37));
    assert(no_divisor_in(1327, 21, 37));
    assert(no_divisor_in(1327, 20, 37));
    assert(no_divisor_in(1327, 19, 37));
    assert(no_divisor_in(1327, 18, 37));
    assert(no_divisor_in(1327, 17, 37));
    assert(no_divisor_in(1327, 16, 37));
    assert(no_divisor_in(1327, 15, 37));
    assert(no_divisor_in(1327, 14, 37));
    assert(no_divisor_in(1327, 13, 37));
    assert(no_divisor_in(1327, 12, 37));
    assert(no_divisor_in(1327, 11, 37));
    assert(no_divisor_in(1327, 10, 37));
    assert(no_divisor_in(1327, 9, 37));
    assert(no_divisor_in(1327, 8, 37));
    assert(no_divisor_in(1327, 7, 37));
    assert(no_divisor_in(1327, 6, 37));
    assert(no_divisor_in(1327, 5, 37));
    assert(no_divisor_in(1327, 4, 37));
    assert(no_divisor_in(1327, 3, 37));
    assert(no_divisor_in(1327, 2, 37));
    assert((36nat + 1) * (36nat + 1) > 1327nat) by (nonlinear_arith);
    lemma_trial_division(1327, 36);
}

/// Square-and-multiply steps 1 to 48 of `2^4002409555221667393417789825735904156556882819939007885332058136124031650490837864442687629129015664037894272559786` modulo `4002409555221667393417789825735904156556882819939007885332058136124031650490837864442687629129015664037894272559787`.
proof fn power_fq_modulus_full_0()
    ensures
        pow(2, 457470365636606) % 4002409555221667393417789825735904156556882819939007885332058136124031650490837864442687629129015664037894272559787int == 553754257698466569883499221660374454557036168848029034586298223017444081097014807649827211752641699901548975641453int,
{
    lemma_pow1(2);
    lemma_small_mod(2, 4002409555221667393417789825735904156556882819939007885332058136124031650490837864442687629129015664037894272559787nat);
    lemma_pow_step(2, 1, 2, 4002409555221667393417789825735904156556882819939007885332058136124031650490837864442687629129015664037894272559787int, 1);
    lemma_pow_step(2, 3, 8, 4002409555221667393417789825735904156556882819939007885332058136124031650490837864442687629129015664037894272559787int, 0);
    lemma_pow_step(2, 6, 64, 4002409555221667393417789825735904156556882819939007885332058136124031650490837864442687629129015664037894272559787int, 1);
    lemma_pow_step(2, 13, 8192, 4002409555221667393417789825735904156556882819939007885332058136124031650490837864442687629129015664037894272559787int, 0);
    lemma_pow_step(2, 26, 67108864, 4002409555221667393417789825735904156556882819939007885332058136124031650490837864442687629129015664037894272559787int, 0);
    lemma_pow_step(2, 52, 4503599627370496, 4002409555221667393417789825735904156556882819939007885332058136124031650490837864442687629129015664037894272559787int, 0);
    lemma_pow_step(2, 104, 20282409603651670423947251286016int, 4002409555221667393417789825735904156556882819939007885332058136124031650490837864442687629129015664037894272559787int, 0);
    lemma_pow_step(2, 208, 411376139330301510538742295639337626245683966408394965837152256int, 4002409555221667393417789825735904156556882819939007885332058136124031650490837864442687629129015664037894272559787int, 0);
    lemma_pow_step(2, 416, 3199086131079795481548867350226163189120506123969973442463969036261756955077287491802582400083946028068098414328239int, 4002409555221667393417789825735904156556882819939007885332058136124031650490837864442687629129015664037894272559787int, 0);
    lemma_pow_step(2, 832, 1301285238915474625411881647241260580664310912763011115621288879833200908600243264337829789325473345040312934444881int, 4002409555221667393417789825735904156556882819939007885332058136124031650490837864442687629129015664037894272559787int, 0);
    lemma_pow_step(2, 1664, 3544207674930826077086005047558163041126908305067056303711406629757016775364068841916710625169308184048946765163188int, 4002409555221667393417789825735904156556882819939007885332058136124031650490837864442687629129015664037894272559787int, 0);
    lemma_pow_step(2, 3328, 3611630070059314906642001326561947947165639708467958994253594074030448475916315508930979602014856131354313783645293int, 4002409555221667393417789825735904156556882819939007885332058136124031650490837864442687629129015664037894272559787int, 1);
    lemma_pow_step(2, 6657, 645612859110063771673882287488647907161608199018863146192426013875830875325915511551257973965953930844402013305971int, 4002409555221667393417789825735904156556882819939007885332058136124031650490837864442687629129015664037894272559787int, 0);
    lemma_pow_step(2, 13314, 1159575984941906221513164482250089178944596974029899451271643235128915028473148154776850473234805418639887365773241int, 4002409555221667393417789825735904156556882819939007885332058136124031650490837864442687629129015664037894272559787int, 0);
    lemma_pow_step(2, 26628, 3807674460572786537930405503681317076529299589284737937394897156790843933598177760243915466521863105847482221016773int, 4002409555221667393417789825735904156556882819939007885332058136124031650490837864442687629129015664037894272559787int, 0);
    lemma_pow_step(2, 53256, 2999724122993679236226931443752802595484068135569815283362857898251136490349494975329465707379542996228037488403917int, 4002409555221667393417789825735904156556882819939007885332058136124031650490837864442687629129015664037894272559787int, 1);
    lemma_pow_step(2, 106513, 3193618063313918670413987173491092126171732401865835067583346448005103507881205265233331658347731301643302836542981int, 4002409555221667393417789825735904156556882819939007885332058136124031650490837864442687629129015664037894272559787int, 0);
    lemma_pow_step(2, 213026, 3130673114594681069547026502017081980753680961095063092709031427449207503347259205511258190479251990728668951759258int, 4002409555221667393417789825735904156556882819939007885332058136124031650490837864442687629129015664037894272559787int, 0);
    lemma_pow_step(2, 426052, 2502133120724121727925563228262456556236847820836018003409060522333423037402729371176518593782036270185909255755322int, 4002409555221667393417789825735904156556882819939007885332058136124031650490837864442687629129015664037894272559787int, 0);
    lemma_pow_step(2, 852104, 3824359413579058076568274922261144005850758894853112729573231516249425936160985443670944302713495236437712969466932int, 4002409555221667393417789825735904156556882819939007885332058136124031650490837864442687629129015664037894272559787int, 1);
    lemma_pow_step(2, 1704209, 2681439658069203349822910726839213845179665309656418466198001450884670567099868548728214956045400342638763316948443int, 4002409555221667393417789825735904156556882819939007885332058136124031650490837864442687629129015664037894272559787int, 1);
    lemma_pow_step(2, 3408419, 1958797612393883419937031834940482697742658157825266918801733951395807015481353996841812655147688512909368071858788int, 4002409555221667393417789825735904156556882819939007885332058136124031650490837864442687629129015664037894272559787int, 1);
    lemma_pow_step(2, 6816839, 1053510299713835027846381457580589488664324376655886257706229231526125563594884921532099967270893091832550546359439int, 4002409555221667393417789825735904156556882819939007885332058136124031650490837864442687629129015664037894272559787int, 1);
    lemma_pow_step(2, 13633679, 2741965114684506205117975846172561884444496615076109278757641348199382683372496620128100263397242941569662841460436int, 4002409555221667393417789825735904156556882819939007885332058136124031650490837864442687629129015664037894272559787int, 0);
    lemma_pow_step(2, 27267358, 1862347007947859415977092432944316212901429103622344541501712854578301277324811120005574291954719768902633724910237int, 4002409555221667393417789825735904156556882819939007885332058136124031650490837864442687629129015664037894272559787int, 1);
    lemma_pow_step(2, 54534717, 814800515626945259946562045746972246687850288594734488009771598505208207924351478009595043710524287561480235490727int, 4002409555221667393417789825735904156556882819939007885332058136124031650490837864442687629129015664037894272559787int, 0);
    lemma_pow_step(2, 109069434, 2342340310496387681329641810144782573677140126109951661522612814730086005662606375053701777169303891466737047120484int, 4002409555221667393417789825735904156556882819939007885332058136124031650490837864442687629129015664037894272559787int, 1);
    lemma_pow_step(2, 218138869, 2986413346345613432279639562343364025816307762120458886686198774625446963788265337427373086554841744385383257961909int, 4002409555221667393417789825735904156556882819939007885332058136124031650490837864442687629129015664037894272559787int, 0);
    lemma_pow_step(2, 436277738, 3840100581553688167529321720084442348597086223307988963477929454586313956781099043798101161905444536325492877304930int, 4002409555221667393417789825735904156556882819939007885332058136124031650490837864442687629129015664037894272559787int, 0);
    lemma_pow_step(2, 872555476, 3006614326792183186559696696977680055378150843470286329164767668531127256775537220691342419284144564665926796233545int, 4002409555221667393417789825735904156556882819939007885332058136124031650490837864442687629129015664037894272559787int, 0);
    lemma_pow_step(2, 1745110952, 3479483403720263357983134293493979606992048770341342280487203736267056744301043166681382165332396840574392647093035int, 4002409555221667393417789825735904156556882819939007885332058136124031650490837864442687629129015664037894272559787int, 1);
    lemma_pow_step(2, 3490221905, 512498697404841440049043451306661404396355439235546013553942248375577081450330665481269577384572064156454727320288int, 4002409555221667393417789825735904156556882819939007885332058136124031650490837864442687629129015664037894272559787int, 1);
    lemma_pow_step(2, 6980443811, 3478276330387852667817749940681536399220478903658015407350421475060652137252098285392073947378086630343781260600159int, 4002409555221667393417789825735904156556882819939007885332058136124031650490837864442687629129015664037894272559787int, 1);
    lemma_pow_step(2, 13960887623, 1706060135205568899934551860678554797415947410554505782516354040617697995336848976929235689133344705796591723461321int, 4002409555221667393417789825735904156556882819939007885332058136124031650490837864442687629129015664037894272559787int, 0);
    lemma_pow_step(2, 27921775246, 412446764743552218182497839461953715235545747124692915693475914351964017536651104182578837112228887524787804879392int, 4002409555221667393417789825735904156556882819939007885332058136124031650490837864442687629129015664037894272559787int, 0);
    lemma_pow_step(2, 55843550492, 3321909159836967064599011001190803310081258364671309132537281748521123110858027435140706267358893471573138968214850int, 4002409555221667393417789825735904156556882819939007885332058136124031650490837864442687629129015664037894272559787int, 1);
    lemma_pow_step(2, 111687100985, 3322072347288707462729772596340257349568485048985944272692281937551472668987944866735984119702140542013080983859977int, 4002409555221667393417789825735904156556882819939007885332058136124031650490837864442687629129015664037894272559787int, 0);
    lemma_pow_step(2, 223374201970, 1430030140552157792560177439658312982952891847399388292426852351265946054740982689175471741959991732942707784390885int, 4002409555221667393417789825735904156556882819939007885332058136124031650490837864442687629129015664037894272559787int, 1);
    lemma_pow_step(2, 446748403941, 2587622177955829472578489285483394317464817651304218634654776564982638752052147691126841230485870007704529605197331int, 4002409555221667393417789825735904156556882819939007885332058136124031650490837864442687629129015664037894272559787int, 1);
    lemma_pow_step(2, 893496807883, 2430211098471026451262185703045608458253782176643818973832880810343286130810653268805003097553307792490763972130523int, 4002409555221667393417789825735904156556882819939007885332058136124031650490837864442687629129015664037894272559787int, 1);
    lemma_pow_step(2, 1786993615767, 2527150313463976373679628097111908631490821578470853001374449043912322813896097870044436661205702816806243198708268int, 4002409555221667393417789825735904156556882819939007885332058136124031650490837864442687629129015664037894272559787int, 1);
    lemma_pow_step(2, 3573987231535, 1542132091151753650404470828493949919288656232043157526072859568382667439362859166753180853052722200679238113642940int, 4002409555221667393417789825735904156556882819939007885332058136124031650490837864442687629129015664037894272559787int, 1);
    lemma_pow_step(2, 7147974463071, 2977560381744367341837330656932935208190479193382748621866658140231695487033961473763878200336781277633438433542998int, 4002409555221667393417789825735904156556882819939007885332058136124031650490837864442687629129015664037894272559787int, 1);
    lemma_pow_step(2, 14295948926143, 2225582164264393366156721000113721699156045868928293528662303975154491220184110239556548773565232620239853957412516int, 4002409555221667393417789825735904156556882819939007885332058136124031650490837864442687629129015664037894272559787int, 1);
    lemma_pow_step(2, 28591897852287, 1541046178503040960757511672933830308029112378979410855514409814473935399423027959648769922465845308531275984040598int, 4002409555221667393417789825735904156556882819939007885332058136124031650490837864442687629129015664037894272559787int, 1);
    lemma_pow_step(2, 57183795704575, 3719524672837377629302947450887779146126498749437900991009067433947635828793547740597405540448510128311689749659914int, 4002409555221667393417789825735904156556882819939007885332058136124031650490837864442687629129015664037894272559787int, 1);
    lemma_pow_step(2, 114367591409151, 1157209413231124372592502193872831216292308623215361832663313370445353808314899200574077006377589788370692395492661int, 4002409555221667393417789825735904156556882819939007885332058136124031650490837864442687629129015664037894272559787int, 1);
    lemma_pow_step(2, 228735182818303, 699030212058992396289053163686637949185830184439937251423318010404982091660039621344731047438529659664767867355746int, 4002409555221667393417789825735904156556882819939007885332058136124031650490837864442687629129015664037894272559787int, 0);
}

/// Square-and-multiply steps 49 to 96 of `2^4002409555221667393417789825735904156556882819939007885332058136124031650490837864442687629129015664037894272559786` modulo `4002409555221667393417789825735904156556882819939007885332058136124031650490837864442687629129015664037894272559787`.
proof fn power_fq_modulus_full_1()
    requires
        pow(2, 457470365636606) % 4002409555221667393417789825735904156556882819939007885332058136124031650490837864442687629129015664037894272559787int == 553754257698466569883499221660374454557036168848029034586298223017444081097014807649827211752641699901548975641453int,
    ensures
        pow(2, 128766460513379074889381215076nat) % 4002409555221667393417789825735904156556882819939007885332058136124031650490837864442687629129015664037894272559787int == 3162098810962623622369209336493017644254926034585087384006555286797694538593217924977197706085428179106917619897385int,
{
    lemma_pow_step(2, 457470365636606, 553754257698466569883499221660374454557036168848029034586298223017444081097014807649827211752641699901548975641453int, 4002409555221667393417789825735904156556882819939007885332058136124031650490837864442687629129015664037894272559787int, 0);
    lemma_pow_step(2, 914940731273212, 1295563055867907969671215674910555989857909307991756792699223995465756162524975877822480245685710205780884853427646int, 4002409555221667393417789825735904156556882819939007885332058136124031650490837864442687629129015664037894272559787int, 1);
    lemma_pow_step(2, 1829881462546425, 3068970648950746097295958231996602270293719829426378752859136757478538072738279322772909118558111683634743060590814int, 4002409555221667393417789825735904156556882819939007885332058136124031650490837864442687629129015664037894272559787int, 1);
    lemma_pow_step(2, 3659762925092851, 2768580383354470675610109643147571779195157150530292895341649398947426170415338057905745436617322448447070466614267int, 4002409555221667393417789825735904156556882819939007885332058136124031650490837864442687629129015664037894272559787int, 0);
    lemma_pow_step(2, 7319525850185702, 1724791736996971119167363320048405113993146731765648407115985792819841390697953300735809333770964669887248862551795int, 4002409555221667393417789825735904156556882819939007885332058136124031650490837864442687629129015664037894272559787int, 1);
    lemma_pow_step(2, 14639051700371405, 958963057923510424977974820822228045175653035965618383502023041007604820367778187433098908776699153553730598388000int, 4002409555221667393417789825735904156556882819939007885332058136124031650490837864442687629129015664037894272559787int, 0);
    lemma_pow_step(2, 29278103400742810, 1422193459771382207053501869283759214858104574897426151545700800140722688608484075678362645949876021191943397362677int, 4002409555221667393417789825735904156556882819939007885332058136124031650490837864442687629129015664037894272559787int, 0);
    lemma_pow_step(2, 58556206801485620, 1730150892101416422019514214484901767616198994912823912121132509702749534501568079922809248211326295593275837411327int, 4002409555221667393417789825735904156556882819939007885332058136124031650490837864442687629129015664037894272559787int, 1);
    lemma_pow_step(2, 117112413602971241, 2215993186005333679872382582313431155394031329444908350842518044777175603056103228910474779569080272495212149318976int, 4002409555221667393417789825735904156556882819939007885332058136124031650490837864442687629129015664037894272559787int, 1);
    lemma_pow_step(2, 234224827205942483, 2832024918890555588380464694560138458983665479236952559199271815841602715306325981613938542923468223686962838520566int, 4002409555221667393417789825735904156556882819939007885332058136124031650490837864442687629129015664037894272559787int, 0);
    lemma_pow_step(2, 468449654411884966, 3938522774116965570909242975877882608378852982057063259589980271775234703192694998571779868656842702400402123550489int, 4002409555221667393417789825735904156556882819939007885332058136124031650490837864442687629129015664037894272559787int, 1);
    lemma_pow_step(2, 936899308823769933, 1692831152737095151162293299313721446513473841228440559478835872739499074180855223835490833826897925028431834025906int, 4002409555221667393417789825735904156556882819939007885332058136124031650490837864442687629129015664037894272559787int, 0);
    lemma_pow_step(2, 1873798617647539866, 3443045376891655749743398613012435487044507121833392939470527063127697302774378389905632842866208557279215027088482int, 4002409555221667393417789825735904156556882819939007885332058136124031650490837864442687629129015664037894272559787int, 0);
    lemma_pow_step(2, 3747597235295079732, 3619781746915728615246713653120525128380035758409256853811029443696808918822209888748996253951446620171039655596203int, 4002409555221667393417789825735904156556882819939007885332058136124031650490837864442687629129015664037894272559787int, 1);
    lemma_pow_step(2, 7495194470590159465, 3543181159964522624516341215647079472662082255496130585176203578623101333369853481460461555219028759404998897491070int, 4002409555221667393417789825735904156556882819939007885332058136124031650490837864442687629129015664037894272559787int, 0);
    lemma_pow_step(2, 14990388941180318930nat, 3047488922120670379505605600692363550579831339216686501727843364355702773537275040494765432216657478941359119130363int, 4002409555221667393417789825735904156556882819939007885332058136124031650490837864442687629129015664037894272559787int, 0);
    lemma_pow_step(2, 29980777882360637860nat, 1102183448532365660424759559526702992154228124995387547112606962224961839768669794889866811343241739247200402841375int, 4002409555221667393417789825735904156556882819939007885332058136124031650490837864442687629129015664037894272559787int, 1);
    lemma_pow_step(2, 59961555764721275721nat, 2738136423671136491748163680896850688336724833488606657472211199217317215570735901476800823656418517270508823525743int, 4002409555221667393417789825735904156556882819939007885332058136124031650490837864442687629129015664037894272559787int, 0);
    lemma_pow_step(2, 119923111529442551442nat, 3973948212446326233447111310979626695711583712084453017852335845895803125797893090404375021359023778060308320673857int, 4002409555221667393417789825735904156556882819939007885332058136124031650490837864442687629129015664037894272559787int, 1);
    lemma_pow_step(2, 239846223058885102885nat, 3169061514055967281070774386219459216988518046086883884143808303152624743021259864455762869621783894350329841093348int, 4002409555221667393417789825735904156556882819939007885332058136124031650490837864442687629129015664037894272559787int, 1);
    lemma_pow_step(2, 479692446117770205771nat, 96174183560188382554174206564936382361470357958291452346758830039788066699872235513527302327399241370414042406513int, 4002409555221667393417789825735904156556882819939007885332058136124031650490837864442687629129015664037894272559787int, 0);
    lemma_pow_step(2, 959384892235540411542nat, 3012517078410827735144223004298050480648578303886516786117382173460788346341478969596666118649038446926739004433880int, 4002409555221667393417789825735904156556882819939007885332058136124031650490837864442687629129015664037894272559787int, 0);
    lemma_pow_step(2, 1918769784471080823084nat, 2564568613721460503659821411721331170734686750308339602058957017124040113704041088084056277622359588782605708268416int, 4002409555221667393417789825735904156556882819939007885332058136124031650490837864442687629129015664037894272559787int, 0);
    lemma_pow_step(2, 3837539568942161646168nat, 474254014134410506322295245851610717955060006959241274200242289660511059198908657003312316155109632514170978376200int, 4002409555221667393417789825735904156556882819939007885332058136124031650490837864442687629129015664037894272559787int, 1);
    lemma_pow_step(2, 7675079137884323292337nat, 3670591819012113786866738854132426510865153367843880005463345626256980077072688900667883850665348086173241097899519int, 4002409555221667393417789825735904156556882819939007885332058136124031650490837864442687629129015664037894272559787int, 1);
    lemma_pow_step(2, 15350158275768646584675nat, 2370373684825748034378791544373796093804511229756665227745918486553751044411086096381895280760296672449657363666987int, 4002409555221667393417789825735904156556882819939007885332058136124031650490837864442687629129015664037894272559787int, 0);
    lemma_pow_step(2, 30700316551537293169350nat, 2171758202670764377096273031396347667023792748486442702812027201786088366035827652316743434593616178069505831994923int, 4002409555221667393417789825735904156556882819939007885332058136124031650490837864442687629129015664037894272559787int, 1);
    lemma_pow_step(2, 61400633103074586338701nat, 1525377488628118811957312268710253218299692068473687336831225723672884477704726826929851741211652870159374732682593int, 4002409555221667393417789825735904156556882819939007885332058136124031650490837864442687629129015664037894272559787int, 1);
    lemma_pow_step(2, 122801266206149172677403nat, 3871773149926412073441763748489873143387534445835949573097169393585026084078809340968371457048803483566224956787134int, 4002409555221667393417789825735904156556882819939007885332058136124031650490837864442687629129015664037894272559787int, 1);
    lemma_pow_step(2, 245602532412298345354807nat, 1870152691741548414424497723480398141797650274470502201222442006698296813423381875537996461561479278681806396217145int, 4002409555221667393417789825735904156556882819939007885332058136124031650490837864442687629129015664037894272559787int, 0);
    lemma_pow_step(2, 491205064824596690709614nat, 1488137115454036958552613774395937822753419333718584229143636158838586024495964989330517224914176471994036474282976int, 4002409555221667393417789825735904156556882819939007885332058136124031650490837864442687629129015664037894272559787int, 1);
    lemma_pow_step(2, 982410129649193381419229nat, 380851334136844491675711634516918919600717142162130146359353661744739899712288738242812515170048715051451674047133int, 4002409555221667393417789825735904156556882819939007885332058136124031650490837864442687629129015664037894272559787int, 0);
    lemma_pow_step(2, 1964820259298386762838458nat, 165665150145178189931566762401952611920008148099602343984846018929848426502311858431921799764340501035867793684834int, 4002409555221667393417789825735904156556882819939007885332058136124031650490837864442687629129015664037894272559787int, 0);
    lemma_pow_step(2, 3929640518596773525676916nat, 2294392322400252843361159845305982342816150908623439425688975676163539734319457588632238295908682807875617442485723int, 4002409555221667393417789825735904156556882819939007885332058136124031650490837864442687629129015664037894272559787int, 1);
    lemma_pow_step(2, 7859281037193547051353833nat, 3928978734046778789690581957558360688018238861971860174469232337843223399916129221781118782827596445391228298671477int, 4002409555221667393417789825735904156556882819939007885332058136124031650490837864442687629129015664037894272559787int, 1);
    lemma_pow_step(2, 15718562074387094102707667nat, 1478113667210280790205986093244531871113387089324598720988039377379164836899327872423776817360401600380845558476424int, 4002409555221667393417789825735904156556882819939007885332058136124031650490837864442687629129015664037894272559787int, 1);
    lemma_pow_step(2, 31437124148774188205415335nat, 347453035688116785406052607861830141830103427505524918699451477577110647005059123970454586421162222052960673166228int, 4002409555221667393417789825735904156556882819939007885332058136124031650490837864442687629129015664037894272559787int, 1);
    lemma_pow_step(2, 62874248297548376410830671nat, 3945260991090934108856799606355652176817016846686668253865021354162568590625159040367869576938837547249129657638837int, 4002409555221667393417789825735904156556882819939007885332058136124031650490837864442687629129015664037894272559787int, 0);
    lemma_pow_step(2, 125748496595096752821661342nat, 1240990003306702526638499449651974618002230827838059853528136313609996520187660332058243881048668252971532778016605int, 4002409555221667393417789825735904156556882819939007885332058136124031650490837864442687629129015664037894272559787int, 1);
    lemma_pow_step(2, 251496993190193505643322685nat, 3247327926541578351341162104400543670674029801750769960668857948794040250740322678753153475356537141772536850209848int, 4002409555221667393417789825735904156556882819939007885332058136124031650490837864442687629129015664037894272559787int, 1);
    lemma_pow_step(2, 502993986380387011286645371nat, 3896178475326314972806935988556195797330525873464155823991708793667639614610996664223162657585407814174363578182905int, 4002409555221667393417789825735904156556882819939007885332058136124031650490837864442687629129015664037894272559787int, 0);
    lemma_pow_step(2, 1005987972760774022573290742nat, 1487728091164059693148445251957970161185939042757884361632701287313869954745700487471733255901602634283158986746967int, 4002409555221667393417789825735904156556882819939007885332058136124031650490837864442687629129015664037894272559787int, 1);
    lemma_pow_step(2, 2011975945521548045146581485nat, 780594452018574606581731759448751788535784469369126768657133242504786372705400903820937441242236596099810206431019int, 4002409555221667393417789825735904156556882819939007885332058136124031650490837864442687629129015664037894272559787int, 1);
    lemma_pow_step(2, 4023951891043096090293162971nat, 2003696397035425444689408472202054575329182074674016825961729004583261420798959884270768668922183642463986899403444int, 4002409555221667393417789825735904156556882819939007885332058136124031650490837864442687629129015664037894272559787int, 0);
    lemma_pow_step(2, 8047903782086192180586325942nat, 1678991202057679983761050956232226413052855259396946846918098416533776674955166859943298836372641261038295835798431int, 4002409555221667393417789825735904156556882819939007885332058136124031650490837864442687629129015664037894272559787int, 0);
    lemma_pow_step(2, 16095807564172384361172651884nat, 1846830371026004198599087723466833220848880936778625035342795267231282143303011928895689070577575899937523833227583int, 4002409555221667393417789825735904156556882819939007885332058136124031650490837864442687629129015664037894272559787int, 1);
    lemma_pow_step(2, 32191615128344768722345303769nat, 3064318065364705809008894600951590771845669334345450777574198000362811122181419007919819071130954018836957166994466int, 4002409555221667393417789825735904156556882819939007885332058136124031650490837864442687629129015664037894272559787int, 0);
    lemma_pow_step(2, 64383230256689537444690607538nat, 73548552279652973315700873795648227673255333852216222565843491024698128607608621683241013563270654953486222345276int, 4002409555221667393417789825735904156556882819939007885332058136124031650490837864442687629129015664037894272559787int, 0);
}

/// Square-and-multiply steps 97 to 144 of `2^4002409555221667393417789825735904156556882819939007885332058136124031650490837864442687629129015664037894272559786` modulo `4002409555221667393417789825735904156556882819939007885332058136124031650490837864442687629129015664037894272559787`.
proof fn power_fq_modulus_full_2()
    requires
        pow(2, 128766460513379074889381215076nat) % 4002409555221667393417789825735904156556882819939007885332058136124031650490837864442687629129015664037894272559787int == 3162098810962623622369209336493017644254926034585087384006555286797694538593217924977197706085428179106917619897385int,
    ensures
        pow(2, 36244536474116980545986700013014011872692084nat) % 4002409555221667393417789825735904156556882819939007885332058136124031650490837864442687629129015664037894272559787int == 2260583869229515629936189506343826037573199275995218706934078723250886842578346844896800230576764017631294203377653int,
{
    lemma_pow_step(2, 128766460513379074889381215076nat, 3162098810962623622369209336493017644254926034585087384006555286797694538593217924977197706085428179106917619897385int, 4002409555221667393417789825735904156556882819939007885332058136124031650490837864442687629129015664037894272559787int, 0);
    lemma_pow_step(2, 257532921026758149778762430152nat, 1290647720905833493540026439497963075592991877149571709081541186717254495458243824738569338695731828653378337230274int, 4002409555221667393417789825735904156556882819939007885332058136124031650490837864442687629129015664037894272559787int, 0);
    lemma_pow_step(2, 515065842053516299557524860304nat, 1979398905546456720377064012820403430524787004234846665860497800591206636505969304360112210708345064401687238615527int, 4002409555221667393417789825735904156556882819939007885332058136124031650490837864442687629129015664037894272559787int, 1);
    lemma_pow_step(2, 1030131684107032599115049720609nat, 2379248436228703270648742762268170101359949503583409859688871376491566915553394602321530614263836967682761090507739int, 4002409555221667393417789825735904156556882819939007885332058136124031650490837864442687629129015664037894272559787int, 1);
    lemma_pow_step(2, 2060263368214065198230099441219nat, 1420495083354002633259026802675466977040008449322620235437301868236477733523050416738047137285382002502858961897910int, 4002409555221667393417789825735904156556882819939007885332058136124031650490837864442687629129015664037894272559787int, 0);
    lemma_pow_step(2, 4120526736428130396460198882438nat, 1277307497975778572312021557277205704740836833872947256509512018817627595126332417882964817723136727451798170796474int, 4002409555221667393417789825735904156556882819939007885332058136124031650490837864442687629129015664037894272559787int, 1);
    lemma_pow_step(2, 8241053472856260792920397764877nat, 1910973050546677170605878250030994408875224886042750223824517330538941272194700517076765548814773374043308102036761int, 4002409555221667393417789825735904156556882819939007885332058136124031650490837864442687629129015664037894272559787int, 0);
    lemma_pow_step(2, 16482106945712521585840795529754nat, 2089514921371305813835466085897146374747503813734467178569779168513624833424753702428131800486451667391446612941460int, 4002409555221667393417789825735904156556882819939007885332058136124031650490837864442687629129015664037894272559787int, 0);
    lemma_pow_step(2, 32964213891425043171681591059508nat, 1343085301167127207060941063196371279508587748265001643543655664816822838023397355297493369841963152283492199476617int, 4002409555221667393417789825735904156556882819939007885332058136124031650490837864442687629129015664037894272559787int, 1);
    lemma_pow_step(2, 65928427782850086343363182119017nat, 552822522320127607945971462104337313201735925365133251224624505236817193583822057545339699830624869883052787113841int, 4002409555221667393417789825735904156556882819939007885332058136124031650490837864442687629129015664037894272559787int, 0);
    lemma_pow_step(2, 131856855565700172686726364238034nat, 1433863383229409360846718986343991062957553983430416109186558664214517682953700383147315277310818237645770264335873int, 4002409555221667393417789825735904156556882819939007885332058136124031650490837864442687629129015664037894272559787int, 1);
    lemma_pow_step(2, 263713711131400345373452728476069nat, 1086158218422550393208548892262767642318114395405237054337383100979899945522710038119834231646948390297757185330802int, 4002409555221667393417789825735904156556882819939007885332058136124031650490837864442687629129015664037894272559787int, 1);
    lemma_pow_step(2, 527427422262800690746905456952139nat, 560341404863588305337327001003757474205126504953697493979435322687507156293272143594603579289597783386822757396404int, 4002409555221667393417789825735904156556882819939007885332058136124031650490837864442687629129015664037894272559787int, 1);
    lemma_pow_step(2, 1054854844525601381493810913904279nat, 1370225362919894389813330282854175215546516718891485782790864677146449976908189586178833488481796834741239149322289int, 4002409555221667393417789825735904156556882819939007885332058136124031650490837864442687629129015664037894272559787int, 0);
    lemma_pow_step(2, 2109709689051202762987621827808558nat, 1729640388980460074883794827818997372838577597127756488129507891658033245054222107002603274101545544239420225808745int, 4002409555221667393417789825735904156556882819939007885332058136124031650490837864442687629129015664037894272559787int, 1);
    lemma_pow_step(2, 4219419378102405525975243655617117nat, 2148372898639152273971014091358674705865144645635300402673773606780943949221011506098447989928251654525099862503996int, 4002409555221667393417789825735904156556882819939007885332058136124031650490837864442687629129015664037894272559787int, 0);
    lemma_pow_step(2, 8438838756204811051950487311234234nat, 2577500697455763767842815558469425411927101572762963101380253684915288951441167122091878677344813905674519184031275int, 4002409555221667393417789825735904156556882819939007885332058136124031650490837864442687629129015664037894272559787int, 1);
    lemma_pow_step(2, 16877677512409622103900974622468469nat, 699216728188378040200465632522438811639620331566244602811557033797471788411876254222048997662013216375511331078499int, 4002409555221667393417789825735904156556882819939007885332058136124031650490837864442687629129015664037894272559787int, 1);
    lemma_pow_step(2, 33755355024819244207801949244936939nat, 157019824746135757050470852194687458834140554393346802791296340767187770495150417930231176102306831522914467661690int, 4002409555221667393417789825735904156556882819939007885332058136124031650490837864442687629129015664037894272559787int, 0);
    lemma_pow_step(2, 67510710049638488415603898489873878nat, 2126372297855152165320180304825736349523430708689675520888741831165807684526039058643294377032638462665948777565864int, 4002409555221667393417789825735904156556882819939007885332058136124031650490837864442687629129015664037894272559787int, 0);
    lemma_pow_step(2, 135021420099276976831207796979747756nat, 234176512736739360441155248575074621140999484299815369784863098764333900430597570822452878771990453646250817865108int, 4002409555221667393417789825735904156556882819939007885332058136124031650490837864442687629129015664037894272559787int, 1);
    lemma_pow_step(2, 270042840198553953662415593959495513nat, 2345150095224058961094207149733068822588542468708780387842693372097697799276597223965743282805254039823992795473445int, 4002409555221667393417789825735904156556882819939007885332058136124031650490837864442687629129015664037894272559787int, 1);
    lemma_pow_step(2, 540085680397107907324831187918991027nat, 2345944059668628632008197763017997234938088052106639503056876930487574842385602640077151595298602105578810683847857int, 4002409555221667393417789825735904156556882819939007885332058136124031650490837864442687629129015664037894272559787int, 0);
    lemma_pow_step(2, 1080171360794215814649662375837982054nat, 2043312060210837621675230716998793805685914197164957492077726631261288089844954871975089653216644197119228228987114int, 4002409555221667393417789825735904156556882819939007885332058136124031650490837864442687629129015664037894272559787int, 1);
    lemma_pow_step(2, 2160342721588431629299324751675964109nat, 773451696446055486817581212648700445355861616192615338935086412781960972653378756183852897064163311528060719906454int, 4002409555221667393417789825735904156556882819939007885332058136124031650490837864442687629129015664037894272559787int, 0);
    lemma_pow_step(2, 4320685443176863258598649503351928218nat, 859753300729318847345378915514562190009031625224633447146454356721205674603481122560073300488001199623016897286287int, 4002409555221667393417789825735904156556882819939007885332058136124031650490837864442687629129015664037894272559787int, 1);
    lemma_pow_step(2, 8641370886353726517197299006703856437nat, 1928693326879464710744501382872169621769712330559651076893274245622215953119962638531175859149081420144496298383504int, 4002409555221667393417789825735904156556882819939007885332058136124031650490837864442687629129015664037894272559787int, 1);
    lemma_pow_step(2, 17282741772707453034394598013407712875nat, 1267350619091564380443942516518985213711882706396112265121376979705305269185813745012090240314569356978435677881554int, 4002409555221667393417789825735904156556882819939007885332058136124031650490837864442687629129015664037894272559787int, 1);
    lemma_pow_step(2, 34565483545414906068789196026815425751nat, 1825260587599961942658430309359226475466924457121024874303011643882472014797163740549277620438274826308502512302370int, 4002409555221667393417789825735904156556882819939007885332058136124031650490837864442687629129015664037894272559787int, 0);
    lemma_pow_step(2, 69130967090829812137578392053630851502nat, 2002760161563118609927733397045931532898073246878385972711242124118812079907818035239138703866466137015314997907550int, 4002409555221667393417789825735904156556882819939007885332058136124031650490837864442687629129015664037894272559787int, 1);
    lemma_pow_step(2, 138261934181659624275156784107261703005nat, 1505011515226009218421866486694559422478932256619592148756266078187306314047099210730408838016839860420982076588918int, 4002409555221667393417789825735904156556882819939007885332058136124031650490837864442687629129015664037894272559787int, 1);
    lemma_pow_step(2, 276523868363319248550313568214523406011nat, 2896756588722037663976110772842182552479859130023242598524672916218955121786729115644230882563525699306481257026373int, 4002409555221667393417789825735904156556882819939007885332058136124031650490837864442687629129015664037894272559787int, 0);
    lemma_pow_step(2, 553047736726638497100627136429046812022nat, 1577159275942988281480813197609980740659629593644845212162289387589572861460737012629115374410167331652113905745289int, 4002409555221667393417789825735904156556882819939007885332058136124031650490837864442687629129015664037894272559787int, 0);
    lemma_pow_step(2, 1106095473453276994201254272858093624044nat, 484926486180522699436877029803547836559861060648870102185538081867044441608788983777482572076560947623787477198319int, 4002409555221667393417789825735904156556882819939007885332058136124031650490837864442687629129015664037894272559787int, 1);
    lemma_pow_step(2, 2212190946906553988402508545716187248089nat, 1659963290529157220172866147631930120316470567230489187167982384539158713712086927099808478554819918358728503860544int, 4002409555221667393417789825735904156556882819939007885332058136124031650490837864442687629129015664037894272559787int, 0);
    lemma_pow_step(2, 4424381893813107976805017091432374496178nat, 2674000444301646981732375984446852703708363074862969069349074211836960784532960616025392223521546631348305977949509int, 4002409555221667393417789825735904156556882819939007885332058136124031650490837864442687629129015664037894272559787int, 0);
    lemma_pow_step(2, 8848763787626215953610034182864748992356nat, 2922304474761245831287727977976481930733345628398996308753479799578254185325899430376503907662189868832773136319376int, 4002409555221667393417789825735904156556882819939007885332058136124031650490837864442687629129015664037894272559787int, 0);
    lemma_pow_step(2, 17697527575252431907220068365729497984712nat, 2450460527286328205001534637079350232088750852836940146721521024465863925838143955922802945916100891762137257365144int, 4002409555221667393417789825735904156556882819939007885332058136124031650490837864442687629129015664037894272559787int, 1);
    lemma_pow_step(2, 35395055150504863814440136731458995969425nat, 606356335134289236963653338389967797292832458813086936875604313830127525010147709030751291202993588751505641470827int, 4002409555221667393417789825735904156556882819939007885332058136124031650490837864442687629129015664037894272559787int, 1);
    lemma_pow_step(2, 70790110301009727628880273462917991938851nat, 983528282861551697871637053024967175249190961210085024240430258765419542670979402230816560819033319452881172019030int, 4002409555221667393417789825735904156556882819939007885332058136124031650490837864442687629129015664037894272559787int, 1);
    lemma_pow_step(2, 141580220602019455257760546925835983877703nat, 3279915265775741938332676119275329497779944368759288220647473820064449472226960666310039980302356252348689195191672int, 4002409555221667393417789825735904156556882819939007885332058136124031650490837864442687629129015664037894272559787int, 0);
    lemma_pow_step(2, 283160441204038910515521093851671967755406nat, 3065153041602080634653062566772450040708469333930513389155563543449128066285726774109781161513672185481064530863661int, 4002409555221667393417789825735904156556882819939007885332058136124031650490837864442687629129015664037894272559787int, 1);
    lemma_pow_step(2, 566320882408077821031042187703343935510813nat, 3193954407630892317138415383483640369743847377850595540186060158495817966680444939993080643272470986202952442539492int, 4002409555221667393417789825735904156556882819939007885332058136124031650490837864442687629129015664037894272559787int, 1);
    lemma_pow_step(2, 1132641764816155642062084375406687871021627nat, 626192510715550352057574231389830634265706471810147216077231997524487616227008577231775655704500776072297718273624int, 4002409555221667393417789825735904156556882819939007885332058136124031650490837864442687629129015664037894272559787int, 1);
    lemma_pow_step(2, 2265283529632311284124168750813375742043255nat, 570564691674514787422149533488980418650972575517337920953711613639937257480389917548112854859229778840123534530337int, 4002409555221667393417789825735904156556882819939007885332058136124031650490837864442687629129015664037894272559787int, 0);
    lemma_pow_step(2, 4530567059264622568248337501626751484086510nat, 2312128004013230224203911142863490596867696359137946522353600254198944991541134693247359477101660490305075146905222int, 4002409555221667393417789825735904156556882819939007885332058136124031650490837864442687629129015664037894272559787int, 1);
    lemma_pow_step(2, 9061134118529245136496675003253502968173021nat, 1188092024044619991003400995046251376374293086272200698330225860202359997733197542974287802760977327793494202651131int, 4002409555221667393417789825735904156556882819939007885332058136124031650490837864442687629129015664037894272559787int, 0);
    lemma_pow_step(2, 18122268237058490272993350006507005936346042nat, 914767915924499283871091106044496378757965689532563248932899091223390121272717337106473807371679358099262648585359int, 4002409555221667393417789825735904156556882819939007885332058136124031650490837864442687629129015664037894272559787int, 0);
}

/// Square-and-multiply steps 145 to 192 of `2^4002409555221667393417789825735904156556882819939007885332058136124031650490837864442687629129015664037894272559786` modulo `4002409555221667393417789825735904156556882819939007885332058136124031650490837864442687629129015664037894272559787`.
proof fn power_fq_modulus_full_3()
    requires
        pow(2, 36244536474116980545986700013014011872692084nat) % 4002409555221667393417789825735904156556882819939007885332058136124031650490837864442687629129015664037894272559787int == 2260583869229515629936189506343826037573199275995218706934078723250886842578346844896800230576764017631294203377653int,
    ensures
        pow(2, 10201930059940599032924150209371042963978205223340236418038nat) % 4002409555221667393417789825735904156556882819939007885332058136124031650490837864442687629129015664037894272559787int == 1925350670756342154364160204935513589620756398000115925010751985191052931459588477746237897037642379400052338851068int,
{
    lemma_pow_step(2, 36244536474116980545986700013014011872692084nat, 2260583869229515629936189506343826037573199275995218706934078723250886842578346844896800230576764017631294203377653int, 4002409555221667393417789825735904156556882819939007885332058136124031650490837864442687629129015664037894272559787int, 1);
    lemma_pow_step(2, 72489072948233961091973400026028023745384169nat, 2669527224056154960794050895019477305477225925740268506002606124432729020470870167917654971604980361969760013665315int, 4002409555221667393417789825735904156556882819939007885332058136124031650490837864442687629129015664037894272559787int, 0);
    lemma_pow_step(2, 144978145896467922183946800052056047490768338nat, 487317504450459469544758541688825519595992436428027209732478191623646852854960194040641986123467622205915880419615int, 4002409555221667393417789825735904156556882819939007885332058136124031650490837864442687629129015664037894272559787int, 1);
    lemma_pow_step(2, 289956291792935844367893600104112094981536677nat, 2474454906998487163381080901722248767084131110695081366701020911903212786730450395241570206396457573567234152725818int, 4002409555221667393417789825735904156556882819939007885332058136124031650490837864442687629129015664037894272559787int, 1);
    lemma_pow_step(2, 579912583585871688735787200208224189963073355nat, 2682785900673872429054202427785865201763118548556782104046701009929801824250918075868766169404813689278362731089306int, 4002409555221667393417789825735904156556882819939007885332058136124031650490837864442687629129015664037894272559787int, 1);
    lemma_pow_step(2, 1159825167171743377471574400416448379926146711nat, 3126680819908402023141597971952544982588498242599375453813573475420106587797457762482288383208058003605363140675145int, 4002409555221667393417789825735904156556882819939007885332058136124031650490837864442687629129015664037894272559787int, 0);
    lemma_pow_step(2, 2319650334343486754943148800832896759852293422nat, 3745246269082563644260761823682155317203165037329910724444269935627805542204999009784396684644661986393278675781516int, 4002409555221667393417789825735904156556882819939007885332058136124031650490837864442687629129015664037894272559787int, 0);
    lemma_pow_step(2, 4639300668686973509886297601665793519704586844nat, 1462492504931514917208692167732304074214650880254697875449128130611410660017336854513867392813563344950384702777336int, 4002409555221667393417789825735904156556882819939007885332058136124031650490837864442687629129015664037894272559787int, 0);
    lemma_pow_step(2, 9278601337373947019772595203331587039409173688nat, 297714450731282151205893968718861316928668765278772395626913760196306636571470012858136321625833118998696205251011int, 4002409555221667393417789825735904156556882819939007885332058136124031650490837864442687629129015664037894272559787int, 0);
    lemma_pow_step(2, 18557202674747894039545190406663174078818347376nat, 983573294898923260952659252041971861066645534102261486253722630188172678747548152365728088134579015538057251024934int, 4002409555221667393417789825735904156556882819939007885332058136124031650490837864442687629129015664037894272559787int, 1);
    lemma_pow_step(2, 37114405349495788079090380813326348157636694753nat, 885311504314619380872079186006025541654582777956821774701288256711270424075272241726335951905361379569197940415621int, 4002409555221667393417789825735904156556882819939007885332058136124031650490837864442687629129015664037894272559787int, 0);
    lemma_pow_step(2, 74228810698991576158180761626652696315273389506nat, 3084775259371515338604826918331063934313892083358699127276081733144808576128330452389443674433152165302684243263642int, 4002409555221667393417789825735904156556882819939007885332058136124031650490837864442687629129015664037894272559787int, 0);
    lemma_pow_step(2, 148457621397983152316361523253305392630546779012nat, 11917465018624113628194067694081055464646288760951043719448685629817413110431972632164284339580584324361588520647int, 4002409555221667393417789825735904156556882819939007885332058136124031650490837864442687629129015664037894272559787int, 1);
    lemma_pow_step(2, 296915242795966304632723046506610785261093558025nat, 2790693833438253423760529665047041396202516641880813874495557717292281808242491958498022498354584146815635804800994int, 4002409555221667393417789825735904156556882819939007885332058136124031650490837864442687629129015664037894272559787int, 1);
    lemma_pow_step(2, 593830485591932609265446093013221570522187116051nat, 1152385813038195282564719510046952867669711258647356281177152417043882380292739921221926884142041350515465246914802int, 4002409555221667393417789825735904156556882819939007885332058136124031650490837864442687629129015664037894272559787int, 1);
    lemma_pow_step(2, 1187660971183865218530892186026443141044374232103nat, 1502072643868962736364980669871435449987854511419790930706609545307104756975683640614630242271939982940440928132139int, 4002409555221667393417789825735904156556882819939007885332058136124031650490837864442687629129015664037894272559787int, 1);
    lemma_pow_step(2, 2375321942367730437061784372052886282088748464207nat, 248263521099213071111455924405828391152271298162766656228483423820875264346573329019521631638761803610830446740639int, 4002409555221667393417789825735904156556882819939007885332058136124031650490837864442687629129015664037894272559787int, 0);
    lemma_pow_step(2, 4750643884735460874123568744105772564177496928414nat, 107819720678694306764727901491086407148272062766729523823690153214116189878717204731276705071401760275643897526852int, 4002409555221667393417789825735904156556882819939007885332058136124031650490837864442687629129015664037894272559787int, 0);
    lemma_pow_step(2, 9501287769470921748247137488211545128354993856828nat, 2367972838634753298999308944789681686580872512101364569326522704061883052751041476446666336182507314923872045601217int, 4002409555221667393417789825735904156556882819939007885332058136124031650490837864442687629129015664037894272559787int, 1);
    lemma_pow_step(2, 19002575538941843496494274976423090256709987713657nat, 166387456752912709629122246959205687503366849637735473385060974928704360387532419657736199543396229802651756027569int, 4002409555221667393417789825735904156556882819939007885332058136124031650490837864442687629129015664037894272559787int, 1);
    lemma_pow_step(2, 38005151077883686992988549952846180513419975427315nat, 1518384502390579293678979953536095596271521166618751787397626579974946771112706345275937013037214453645568743439042int, 4002409555221667393417789825735904156556882819939007885332058136124031650490837864442687629129015664037894272559787int, 1);
    lemma_pow_step(2, 76010302155767373985977099905692361026839950854631nat, 3188962714077428345611819962106839023733240549796241940218778690165503845738171521455463259851786765353307441987628int, 4002409555221667393417789825735904156556882819939007885332058136124031650490837864442687629129015664037894272559787int, 0);
    lemma_pow_step(2, 152020604311534747971954199811384722053679901709262nat, 2775799166243938854116136093971320991720345557209232302621148614873989018933483356141329330389415958567438034553050int, 4002409555221667393417789825735904156556882819939007885332058136124031650490837864442687629129015664037894272559787int, 0);
    lemma_pow_step(2, 304041208623069495943908399622769444107359803418524nat, 1778334220652607273177085715896956402023695048637385187470089563494844549886706215016595142063763727994546522998209int, 4002409555221667393417789825735904156556882819939007885332058136124031650490837864442687629129015664037894272559787int, 0);
    lemma_pow_step(2, 608082417246138991887816799245538888214719606837048nat, 1029201053227416915525700501651501591118035108450368387918703176533176082905437598514284965236783694871852926991410int, 4002409555221667393417789825735904156556882819939007885332058136124031650490837864442687629129015664037894272559787int, 0);
    lemma_pow_step(2, 1216164834492277983775633598491077776429439213674096nat, 2614984458168458770762187120288185288151078380139270643480468025076234791925100116483961079281008269636624981780533int, 4002409555221667393417789825735904156556882819939007885332058136124031650490837864442687629129015664037894272559787int, 1);
    lemma_pow_step(2, 2432329668984555967551267196982155552858878427348193nat, 2813550005229442403597222794243012074102271062393724692675888209374717863139703116974787108500529523664925195534086int, 4002409555221667393417789825735904156556882819939007885332058136124031650490837864442687629129015664037894272559787int, 0);
    lemma_pow_step(2, 4864659337969111935102534393964311105717756854696386nat, 1918877940114915663326904487394817964110247397934897651358661189215500773990013810348140835254842000733003536371180int, 4002409555221667393417789825735904156556882819939007885332058136124031650490837864442687629129015664037894272559787int, 1);
    lemma_pow_step(2, 9729318675938223870205068787928622211435513709392773nat, 302434489512524595889754326708670456158614189715729099720099221851291249211126755453514773709865200347559537792929int, 4002409555221667393417789825735904156556882819939007885332058136124031650490837864442687629129015664037894272559787int, 0);
    lemma_pow_step(2, 19458637351876447740410137575857244422871027418785546nat, 2711563220271415680822917616608984344541985615549298142144706941456887784149840523657791005565476868924695789421328int, 4002409555221667393417789825735904156556882819939007885332058136124031650490837864442687629129015664037894272559787int, 0);
    lemma_pow_step(2, 38917274703752895480820275151714488845742054837571092nat, 592757574309213698437834826477910309210112439471487756735116191687910069911296726010427522007945456681391800754599int, 4002409555221667393417789825735904156556882819939007885332058136124031650490837864442687629129015664037894272559787int, 0);
    lemma_pow_step(2, 77834549407505790961640550303428977691484109675142184nat, 3997414289961650034042231136974022243497926763003064861998280052977136461548558407096724571969375934795045726992007int, 4002409555221667393417789825735904156556882819939007885332058136124031650490837864442687629129015664037894272559787int, 1);
    lemma_pow_step(2, 155669098815011581923281100606857955382968219350284369nat, 940275286868915663555754550838747954661490466984539091987104763004329486256779340703230124584488425774864449150801int, 4002409555221667393417789825735904156556882819939007885332058136124031650490837864442687629129015664037894272559787int, 0);
    lemma_pow_step(2, 311338197630023163846562201213715910765936438700568738nat, 3910771796204984668486665200531149447865168686139299623804370124061281054096757559659797037224453482860171632085010int, 4002409555221667393417789825735904156556882819939007885332058136124031650490837864442687629129015664037894272559787int, 0);
    lemma_pow_step(2, 622676395260046327693124402427431821531872877401137476nat, 578937221990284097402307243006244608982255489570929288018649172971640973601748801901642173477666930113665684656428int, 4002409555221667393417789825735904156556882819939007885332058136124031650490837864442687629129015664037894272559787int, 1);
    lemma_pow_step(2, 1245352790520092655386248804854863643063745754802274953nat, 2994596172495666061982771469124383421882663019669171217461109360368629688505396089182183812213171867723405990726609int, 4002409555221667393417789825735904156556882819939007885332058136124031650490837864442687629129015664037894272559787int, 0);
    lemma_pow_step(2, 2490705581040185310772497609709727286127491509604549906nat, 3166138933615171095734220343326583070010950082367415698425580440615868213889389519545975449391515733194291340619867int, 4002409555221667393417789825735904156556882819939007885332058136124031650490837864442687629129015664037894272559787int, 1);
    lemma_pow_step(2, 4981411162080370621544995219419454572254983019209099813nat, 1583221930620242569252746956182181217911480752638992248351388537140918642883158080862503710581572654196384050774933int, 4002409555221667393417789825735904156556882819939007885332058136124031650490837864442687629129015664037894272559787int, 0);
    lemma_pow_step(2, 9962822324160741243089990438838909144509966038418199626nat, 1337675428104683906225830458094399963841099898477725058919690102934329120682240637362543635593410719003071334820690int, 4002409555221667393417789825735904156556882819939007885332058136124031650490837864442687629129015664037894272559787int, 1);
    lemma_pow_step(2, 19925644648321482486179980877677818289019932076836399253nat, 2236214517710647683208886435758860374144218448318922408102629700235521286977006935322912824958713233412914298979417int, 4002409555221667393417789825735904156556882819939007885332058136124031650490837864442687629129015664037894272559787int, 1);
    lemma_pow_step(2, 39851289296642964972359961755355636578039864153672798507nat, 809981474941272801763172289403526603883814036350650976706907745097073792439265322574910643307130913158643382833722int, 4002409555221667393417789825735904156556882819939007885332058136124031650490837864442687629129015664037894272559787int, 1);
    lemma_pow_step(2, 79702578593285929944719923510711273156079728307345597015nat, 59269358707052360736519766352041547625759031616804984387210582517202095264317751386803140289765733743705088290443int, 4002409555221667393417789825735904156556882819939007885332058136124031650490837864442687629129015664037894272559787int, 1);
    lemma_pow_step(2, 159405157186571859889439847021422546312159456614691194031nat, 1815745268527648965963961752929297851280736318473697582586020966737836761005187348883181970517150948440895504645873int, 4002409555221667393417789825735904156556882819939007885332058136124031650490837864442687629129015664037894272559787int, 1);
    lemma_pow_step(2, 318810314373143719778879694042845092624318913229382388063nat, 2414128915197155614956788451897613910897820295104004815484567420122984166532673851682784403327156027437478212190916int, 4002409555221667393417789825735904156556882819939007885332058136124031650490837864442687629129015664037894272559787int, 1);
    lemma_pow_step(2, 637620628746287439557759388085690185248637826458764776127nat, 2739637065306174055090195160584140075381089709181881107627539918133568360273719254539721644592223657263470619593347int, 4002409555221667393417789825735904156556882819939007885332058136124031650490837864442687629129015664037894272559787int, 0);
    lemma_pow_step(2, 1275241257492574879115518776171380370497275652917529552254nat, 408752790002044287334563330486343530684347561220074633978567234366645144824000790927956308674978520627648870793324int, 4002409555221667393417789825735904156556882819939007885332058136124031650490837864442687629129015664037894272559787int, 1);
    lemma_pow_step(2, 2550482514985149758231037552342760740994551305835059104509nat, 976059771669146954200962264487606210721277843536290086009860270917449375437867065375059572428184114881719659111515int, 4002409555221667393417789825735904156556882819939007885332058136124031650490837864442687629129015664037894272559787int, 1);
    lemma_pow_step(2, 5100965029970299516462075104685521481989102611670118209019nat, 3415715162449353101169694787273297887023391382342787691723756617899874203319180991528341403775379530128803802183605int, 4002409555221667393417789825735904156556882819939007885332058136124031650490837864442687629129015664037894272559787int, 0);
}

/// Square-and-multiply steps 193 to 240 of `2^4002409555221667393417789825735904156556882819939007885332058136124031650490837864442687629129015664037894272559786` modulo `4002409555221667393417789825735904156556882819939007885332058136124031650490837864442687629129015664037894272559787`.
proof fn power_fq_modulus_full_4()
    requires
        pow(2, 10201930059940599032924150209371042963978205223340236418038nat) % 4002409555221667393417789825735904156556882819939007885332058136124031650490837864442687629129015664037894272559787int == 1925350670756342154364160204935513589620756398000115925010751985191052931459588477746237897037642379400052338851068int,
    ensures
        pow(2, 2871588026025521482895094736344854184571522088371663096799777569362635535nat) % 4002409555221667393417789825735904156556882819939007885332058136124031650490837864442687629129015664037894272559787int == 465437802156645073254502303648704412852037077730777096104478707047218347040558038953564352558842246314177588871321int,
{
    lemma_pow_step(2, 10201930059940599032924150209371042963978205223340236418038nat, 1925350670756342154364160204935513589620756398000115925010751985191052931459588477746237897037642379400052338851068int, 4002409555221667393417789825735904156556882819939007885332058136124031650490837864442687629129015664037894272559787int, 0);
    lemma_pow_step(2, 20403860119881198065848300418742085927956410446680472836076nat, 2659935545926977335587833274315636002632462617784008595756259867132897756705206835344961384894277167929746615854596int, 4002409555221667393417789825735904156556882819939007885332058136124031650490837864442687629129015664037894272559787int, 1);
    lemma_pow_step(2, 40807720239762396131696600837484171855912820893360945672153nat, 1898295363988083150512408079706157323384516739270287803524400882556263686999830723157975425919016710467925419818672int, 4002409555221667393417789825735904156556882819939007885332058136124031650490837864442687629129015664037894272559787int, 1);
    lemma_pow_step(2, 81615440479524792263393201674968343711825641786721891344307nat, 2321257542794448661178945578551571286853430121780136496655235759244854491094756170112799453838604169120884903138497int, 4002409555221667393417789825735904156556882819939007885332058136124031650490837864442687629129015664037894272559787int, 1);
    lemma_pow_step(2, 163230880959049584526786403349936687423651283573443782688615nat, 1142345363648311422465878234109885764160347637965035575833657019787695437050154552048647810262213623651113404096369int, 4002409555221667393417789825735904156556882819939007885332058136124031650490837864442687629129015664037894272559787int, 0);
    lemma_pow_step(2, 326461761918099169053572806699873374847302567146887565377230nat, 1613662074064036519940489297500083265384366582648464488998724899945639608902738268082707344757736038529777761281474int, 4002409555221667393417789825735904156556882819939007885332058136124031650490837864442687629129015664037894272559787int, 0);
    lemma_pow_step(2, 652923523836198338107145613399746749694605134293775130754460nat, 2380152231115613287703677999269169493635840418622571039608095558763748251227939571868558745852530185436165586305454int, 4002409555221667393417789825735904156556882819939007885332058136124031650490837864442687629129015664037894272559787int, 1);
    lemma_pow_step(2, 1305847047672396676214291226799493499389210268587550261508921nat, 630653962910042113951056437497495613136177998631981276389931926707109017425235675740877989643304702922417062404902int, 4002409555221667393417789825735904156556882819939007885332058136124031650490837864442687629129015664037894272559787int, 1);
    lemma_pow_step(2, 2611694095344793352428582453598986998778420537175100523017843nat, 1915735484329722899843579041697256271892149578726618952314364999584525309030806992699088734541997914252759298323927int, 4002409555221667393417789825735904156556882819939007885332058136124031650490837864442687629129015664037894272559787int, 0);
    lemma_pow_step(2, 5223388190689586704857164907197973997556841074350201046035686nat, 1442627047343602965268306127612605111374295794593815986218348675549306717453717883670098911776693738764239165734247int, 4002409555221667393417789825735904156556882819939007885332058136124031650490837864442687629129015664037894272559787int, 0);
    lemma_pow_step(2, 10446776381379173409714329814395947995113682148700402092071372nat, 48902936570424177124779177668293565361817996789743848170072260777901256992873364292602736098733102665655872277234int, 4002409555221667393417789825735904156556882819939007885332058136124031650490837864442687629129015664037894272559787int, 0);
    lemma_pow_step(2, 20893552762758346819428659628791895990227364297400804184142744nat, 650970073368248535818728507265616071698863345311376428533218427724971397576379088809536013525946082253197505137105int, 4002409555221667393417789825735904156556882819939007885332058136124031650490837864442687629129015664037894272559787int, 0);
    lemma_pow_step(2, 41787105525516693638857319257583791980454728594801608368285488nat, 2541245681832921763538176115087656961972831152222037494902427246352415981740555008043730056614291042561860819779054int, 4002409555221667393417789825735904156556882819939007885332058136124031650490837864442687629129015664037894272559787int, 1);
    lemma_pow_step(2, 83574211051033387277714638515167583960909457189603216736570977nat, 2060986248537706329134005395368764827321307062707355190212726547604584064799883336987067532962378216800875454987232int, 4002409555221667393417789825735904156556882819939007885332058136124031650490837864442687629129015664037894272559787int, 1);
    lemma_pow_step(2, 167148422102066774555429277030335167921818914379206433473141955nat, 3601287986193229653642094406788091206624595383858157794675477874757828034549054646361585875257649714568152551797568int, 4002409555221667393417789825735904156556882819939007885332058136124031650490837864442687629129015664037894272559787int, 0);
    lemma_pow_step(2, 334296844204133549110858554060670335843637828758412866946283910nat, 1372820059413238869838417268858794248347066975834975643925965070649248800509237878689010065030332866484156848027793int, 4002409555221667393417789825735904156556882819939007885332058136124031650490837864442687629129015664037894272559787int, 1);
    lemma_pow_step(2, 668593688408267098221717108121340671687275657516825733892567821nat, 2562710567523431346398268183653437371283948631511524742432162581401610844353133545382444372933510037542850610408330int, 4002409555221667393417789825735904156556882819939007885332058136124031650490837864442687629129015664037894272559787int, 0);
    lemma_pow_step(2, 1337187376816534196443434216242681343374551315033651467785135642nat, 3203559165327569464965569588470588130394171296162101773462717314177697788675379118648699252224273613139671828248726int, 4002409555221667393417789825735904156556882819939007885332058136124031650490837864442687629129015664037894272559787int, 0);
    lemma_pow_step(2, 2674374753633068392886868432485362686749102630067302935570271284nat, 3065619681649512788170696040316866764930364512720659199072021245632052019612106983845829735020323068480573686369470int, 4002409555221667393417789825735904156556882819939007885332058136124031650490837864442687629129015664037894272559787int, 1);
    lemma_pow_step(2, 5348749507266136785773736864970725373498205260134605871140542569nat, 57530901514448695505695801796541716804828715070156046128252355708043024270735666865373734797699701441601597988225int, 4002409555221667393417789825735904156556882819939007885332058136124031650490837864442687629129015664037894272559787int, 0);
    lemma_pow_step(2, 10697499014532273571547473729941450746996410520269211742281085138nat, 2722707626857935278615067896886216123839978844392693490350826285027046185734560528650415406887192688671237463916591int, 4002409555221667393417789825735904156556882819939007885332058136124031650490837864442687629129015664037894272559787int, 1);
    lemma_pow_step(2, 21394998029064547143094947459882901493992821040538423484562170277nat, 1850393032202291772658945173396309608667010641903450208697691197845729746101283406421168822077332407716051882572019int, 4002409555221667393417789825735904156556882819939007885332058136124031650490837864442687629129015664037894272559787int, 0);
    lemma_pow_step(2, 42789996058129094286189894919765802987985642081076846969124340554nat, 1623496459814055849708127747424995954863681236632009726428076947784424367925382217089075663704822201564567078467477int, 4002409555221667393417789825735904156556882819939007885332058136124031650490837864442687629129015664037894272559787int, 1);
    lemma_pow_step(2, 85579992116258188572379789839531605975971284162153693938248681109nat, 2471396025522200919929446975838733578017546215864682792334960326648822248072206130431854965043531123979768359069559int, 4002409555221667393417789825735904156556882819939007885332058136124031650490837864442687629129015664037894272559787int, 0);
    lemma_pow_step(2, 171159984232516377144759579679063211951942568324307387876497362218nat, 3942757877776922848701241335700161233687079472995740125495303936771547268821206153833849615518883140890272095169913int, 4002409555221667393417789825735904156556882819939007885332058136124031650490837864442687629129015664037894272559787int, 0);
    lemma_pow_step(2, 342319968465032754289519159358126423903885136648614775752994724436nat, 2806198114590947924937119826833962621614864322030067031136994553299185566896953928884421101508975770697445577899881int, 4002409555221667393417789825735904156556882819939007885332058136124031650490837864442687629129015664037894272559787int, 0);
    lemma_pow_step(2, 684639936930065508579038318716252847807770273297229551505989448872nat, 2339739864945292846843787423469701346339556210132127498190149513632335512593436826464838786332621543224817351897630int, 4002409555221667393417789825735904156556882819939007885332058136124031650490837864442687629129015664037894272559787int, 0);
    lemma_pow_step(2, 1369279873860131017158076637432505695615540546594459103011978897744nat, 367996712063094374287813320339041571456410338379267300470742046233353074671741635420538470796101858424747951757673int, 4002409555221667393417789825735904156556882819939007885332058136124031650490837864442687629129015664037894272559787int, 0);
    lemma_pow_step(2, 2738559747720262034316153274865011391231081093188918206023957795488nat, 309055588530038706036906711183269971542087450587912179916805324176205533726674447458460640371520436875676915152861int, 4002409555221667393417789825735904156556882819939007885332058136124031650490837864442687629129015664037894272559787int, 1);
    lemma_pow_step(2, 5477119495440524068632306549730022782462162186377836412047915590977nat, 2630948298472915737263789720647465994509565050408094941818108612025899611003053145190588534826217902754418335771984int, 4002409555221667393417789825735904156556882819939007885332058136124031650490837864442687629129015664037894272559787int, 1);
    lemma_pow_step(2, 10954238990881048137264613099460045564924324372755672824095831181955nat, 2539203204967744217090131695731241082461015399598262807385444414473234305845422125521178276675020933083134259635662int, 4002409555221667393417789825735904156556882819939007885332058136124031650490837864442687629129015664037894272559787int, 1);
    lemma_pow_step(2, 21908477981762096274529226198920091129848648745511345648191662363911nat, 433521553998742954709860246530443869930166909719500409171464711035760511686317846639220676719000097225010218990004int, 4002409555221667393417789825735904156556882819939007885332058136124031650490837864442687629129015664037894272559787int, 1);
    lemma_pow_step(2, 43816955963524192549058452397840182259697297491022691296383324727823nat, 2458021732797812609980472456241804368809519285031706738684638743044513624120980797530131397399842310745543522605671int, 4002409555221667393417789825735904156556882819939007885332058136124031650490837864442687629129015664037894272559787int, 0);
    lemma_pow_step(2, 87633911927048385098116904795680364519394594982045382592766649455646nat, 3588367381575335713775051028304627320024126307992431530327737711076435341981190514849193799546171498538130330422513int, 4002409555221667393417789825735904156556882819939007885332058136124031650490837864442687629129015664037894272559787int, 1);
    lemma_pow_step(2, 175267823854096770196233809591360729038789189964090765185533298911293nat, 1913468937157810882815445347024579526025278094565553679301675722565795772667270152316328455444228332278541859985082int, 4002409555221667393417789825735904156556882819939007885332058136124031650490837864442687629129015664037894272559787int, 1);
    lemma_pow_step(2, 350535647708193540392467619182721458077578379928181530371066597822587nat, 579923617439873675268868986868671263104072916587575218419991390474515548560049744507206074323677278189860128955791int, 4002409555221667393417789825735904156556882819939007885332058136124031650490837864442687629129015664037894272559787int, 0);
    lemma_pow_step(2, 701071295416387080784935238365442916155156759856363060742133195645174nat, 1672189618955039340197482017536545151787760062878344997144412879021246014253351571667056669692152347293772897736769int, 4002409555221667393417789825735904156556882819939007885332058136124031650490837864442687629129015664037894272559787int, 1);
    lemma_pow_step(2, 1402142590832774161569870476730885832310313519712726121484266391290349nat, 2470772066089534876708770913614625579535381375593908953145196230356017300179203112041569999577279424516607506481124int, 4002409555221667393417789825735904156556882819939007885332058136124031650490837864442687629129015664037894272559787int, 0);
    lemma_pow_step(2, 2804285181665548323139740953461771664620627039425452242968532782580698nat, 122626618406996041887323204882445514539264712705352491542608620108899360293653150379964060827052796035166019690760int, 4002409555221667393417789825735904156556882819939007885332058136124031650490837864442687629129015664037894272559787int, 1);
    lemma_pow_step(2, 5608570363331096646279481906923543329241254078850904485937065565161397nat, 539961904495310931839574999476797182978927556010310881866838076565498710775308955996695612735994881514180385852819int, 4002409555221667393417789825735904156556882819939007885332058136124031650490837864442687629129015664037894272559787int, 1);
    lemma_pow_step(2, 11217140726662193292558963813847086658482508157701808971874131130322795nat, 1191557263705737764792889392452897895534049782211067308152862335472736747098275310607872020550327011462404038833371int, 4002409555221667393417789825735904156556882819939007885332058136124031650490837864442687629129015664037894272559787int, 0);
    lemma_pow_step(2, 22434281453324386585117927627694173316965016315403617943748262260645590nat, 95623135743971040665596884983608351379954469228604211380661544057200912597236028364300700292975266648216708243298int, 4002409555221667393417789825735904156556882819939007885332058136124031650490837864442687629129015664037894272559787int, 0);
    lemma_pow_step(2, 44868562906648773170235855255388346633930032630807235887496524521291180nat, 3275124470829226888444681001854540353388825805628390849004095687677060567881616551954411978687787587696282733852837int, 4002409555221667393417789825735904156556882819939007885332058136124031650490837864442687629129015664037894272559787int, 0);
    lemma_pow_step(2, 89737125813297546340471710510776693267860065261614471774993049042582360nat, 1280105853562419437349531441916610746103167468334908715412201795093602304839996148756960675966505293029951271568266int, 4002409555221667393417789825735904156556882819939007885332058136124031650490837864442687629129015664037894272559787int, 0);
    lemma_pow_step(2, 179474251626595092680943421021553386535720130523228943549986098085164720nat, 1016143581998815268041048228725213727679195532231075456607724280806905877580081529526585881699133122868040117759273int, 4002409555221667393417789825735904156556882819939007885332058136124031650490837864442687629129015664037894272559787int, 1);
    lemma_pow_step(2, 358948503253190185361886842043106773071440261046457887099972196170329441nat, 1527033016863545543754856198622436618812957558449178256940847824434883729904713692642311558726403744980197278470092int, 4002409555221667393417789825735904156556882819939007885332058136124031650490837864442687629129015664037894272559787int, 1);
    lemma_pow_step(2, 717897006506380370723773684086213546142880522092915774199944392340658883nat, 1715013139772867929481033412879543520360968728159431321375439111599062292159342653685110442416382351672849139776623int, 4002409555221667393417789825735904156556882819939007885332058136124031650490837864442687629129015664037894272559787int, 1);
    lemma_pow_step(2, 1435794013012760741447547368172427092285761044185831548399888784681317767nat, 1349354416567220299514497637948941800316940013573569422995655856530065102884445342310636378248590188153188103719820int, 4002409555221667393417789825735904156556882819939007885332058136124031650490837864442687629129015664037894272559787int, 1);
}

/// Square-and-multiply steps 241 to 288 of `2^4002409555221667393417789825735904156556882819939007885332058136124031650490837864442687629129015664037894272559786` modulo `4002409555221667393417789825735904156556882819939007885332058136124031650490837864442687629129015664037894272559787`.
proof fn power_fq_modulus_full_5()
    requires
        pow(2, 2871588026025521482895094736344854184571522088371663096799777569362635535nat) % 4002409555221667393417789825735904156556882819939007885332058136124031650490837864442687629129015664037894272559787int == 465437802156645073254502303648704412852037077730777096104478707047218347040558038953564352558842246314177588871321int,
    ensures
        pow(2, 808280172748132295008574196378690604277657445498743350485655677861028900951880529608683nat) % 4002409555221667393417789825735904156556882819939007885332058136124031650490837864442687629129015664037894272559787int == 2707345190506004594788222512267957540447975068274037065520334946415992233256893083786074416244737863288630780199007int,
{
    lemma_pow_step(2, 2871588026025521482895094736344854184571522088371663096799777569362635535nat, 465437802156645073254502303648704412852037077730777096104478707047218347040558038953564352558842246314177588871321int, 4002409555221667393417789825735904156556882819939007885332058136124031650490837864442687629129015664037894272559787int, 0);
    lemma_pow_step(2, 5743176052051042965790189472689708369143044176743326193599555138725271070nat, 3936916649129385145698630472065201555705583822361037228717561181205795303426354108888538267272076048690003477060762int, 4002409555221667393417789825735904156556882819939007885332058136124031650490837864442687629129015664037894272559787int, 1);
    lemma_pow_step(2, 11486352104102085931580378945379416738286088353486652387199110277450542141nat, 1422944926240063301456271833713071453491698770048697148933907874384313858553444234525791694192017166966110121576291int, 4002409555221667393417789825735904156556882819939007885332058136124031650490837864442687629129015664037894272559787int, 1);
    lemma_pow_step(2, 22972704208204171863160757890758833476572176706973304774398220554901084283nat, 3126353256465135407534239932245440658829431970530885416981650328730842471032918378473698198177126816935850379515171int, 4002409555221667393417789825735904156556882819939007885332058136124031650490837864442687629129015664037894272559787int, 0);
    lemma_pow_step(2, 45945408416408343726321515781517666953144353413946609548796441109802168566nat, 3090672239821423524016173622033590138300783160107116408026060293920622761409766231129945663398725522994409045627775int, 4002409555221667393417789825735904156556882819939007885332058136124031650490837864442687629129015664037894272559787int, 0);
    lemma_pow_step(2, 91890816832816687452643031563035333906288706827893219097592882219604337132nat, 1661609427065071002420854680968911710981291153711002024092595082815452762639538777634756577259429875211158736352053int, 4002409555221667393417789825735904156556882819939007885332058136124031650490837864442687629129015664037894272559787int, 0);
    lemma_pow_step(2, 183781633665633374905286063126070667812577413655786438195185764439208674264nat, 199094908727904436798462654910182882571865288819584719126010596785143650627908654540297162790595260329261006272482int, 4002409555221667393417789825735904156556882819939007885332058136124031650490837864442687629129015664037894272559787int, 1);
    lemma_pow_step(2, 367563267331266749810572126252141335625154827311572876390371528878417348529nat, 3568011742548963402738171934248569500863390904167431238844234938329238210028417505005912621320559108577451433165096int, 4002409555221667393417789825735904156556882819939007885332058136124031650490837864442687629129015664037894272559787int, 0);
    lemma_pow_step(2, 735126534662533499621144252504282671250309654623145752780743057756834697058nat, 439252105273803331855226136259214694005595604167141332059156481020472171587571440065399367289882470757756284454570int, 4002409555221667393417789825735904156556882819939007885332058136124031650490837864442687629129015664037894272559787int, 0);
    lemma_pow_step(2, 1470253069325066999242288505008565342500619309246291505561486115513669394116nat, 546065898539302706982637415370306347725368087758781416828084241362325234168077425137019904803826168403330009742403int, 4002409555221667393417789825735904156556882819939007885332058136124031650490837864442687629129015664037894272559787int, 1);
    lemma_pow_step(2, 2940506138650133998484577010017130685001238618492583011122972231027338788233nat, 1266754728804746060380486688350198533695721450754561075114038896198992848571048019030021479464121199594991630528317int, 4002409555221667393417789825735904156556882819939007885332058136124031650490837864442687629129015664037894272559787int, 0);
    lemma_pow_step(2, 5881012277300267996969154020034261370002477236985166022245944462054677576466nat, 3076785862966139381413263337025028706896888131949740209492503381852550990639519893201420209513102502149536386569113int, 4002409555221667393417789825735904156556882819939007885332058136124031650490837864442687629129015664037894272559787int, 0);
    lemma_pow_step(2, 11762024554600535993938308040068522740004954473970332044491888924109355152932nat, 2428086115708030461806702319222270156817258852771283189250650525504952985106392126210913709669085941951147401427229int, 4002409555221667393417789825735904156556882819939007885332058136124031650490837864442687629129015664037894272559787int, 0);
    lemma_pow_step(2, 23524049109201071987876616080137045480009908947940664088983777848218710305864nat, 1713042104770613647374820367660325037686874099460535084800894129138427561614567556101382172339239486154821369471276int, 4002409555221667393417789825735904156556882819939007885332058136124031650490837864442687629129015664037894272559787int, 0);
    lemma_pow_step(2, 47048098218402143975753232160274090960019817895881328177967555696437420611728nat, 2723433253319495034772662902032001572946257625032210456708468961150740313765408239422404713697311116333964267095090int, 4002409555221667393417789825735904156556882819939007885332058136124031650490837864442687629129015664037894272559787int, 0);
    lemma_pow_step(2, 94096196436804287951506464320548181920039635791762656355935111392874841223456nat, 1123172228644006309338675827864165988682742409250080458117325961330122933783003293729141591800445379342229773860238int, 4002409555221667393417789825735904156556882819939007885332058136124031650490837864442687629129015664037894272559787int, 1);
    lemma_pow_step(2, 188192392873608575903012928641096363840079271583525312711870222785749682446913nat, 436794425681610951479815888633973386603728312198982947290364616749994262553868222919578736675185944815580978154942int, 4002409555221667393417789825735904156556882819939007885332058136124031650490837864442687629129015664037894272559787int, 1);
    lemma_pow_step(2, 376384785747217151806025857282192727680158543167050625423740445571499364893827nat, 3930214975031206648011734414791816195613110730294336814394750682895458144891188986945956937337532980775965867919744int, 4002409555221667393417789825735904156556882819939007885332058136124031650490837864442687629129015664037894272559787int, 1);
    lemma_pow_step(2, 752769571494434303612051714564385455360317086334101250847480891142998729787655nat, 1450345765396250175782934157359285908829823219312083401162678645798009845029746309355618731086042141068231085769950int, 4002409555221667393417789825735904156556882819939007885332058136124031650490837864442687629129015664037894272559787int, 1);
    lemma_pow_step(2, 1505539142988868607224103429128770910720634172668202501694961782285997459575311nat, 251649415577461812145905683793379809273468074801765309701311034171992057499970368915497767668188097066485178403314int, 4002409555221667393417789825735904156556882819939007885332058136124031650490837864442687629129015664037894272559787int, 0);
    lemma_pow_step(2, 3011078285977737214448206858257541821441268345336405003389923564571994919150622nat, 3917995930311944610729592985053959161972363833528042908792579108180589561046644749015447107263413711964060247611182int, 4002409555221667393417789825735904156556882819939007885332058136124031650490837864442687629129015664037894272559787int, 1);
    lemma_pow_step(2, 6022156571955474428896413716515083642882536690672810006779847129143989838301245nat, 330862922477825248743329058534057756476682520893921971626980946932789633179472720995503538231994766148699190635621int, 4002409555221667393417789825735904156556882819939007885332058136124031650490837864442687629129015664037894272559787int, 0);
    lemma_pow_step(2, 12044313143910948857792827433030167285765073381345620013559694258287979676602490nat, 871806643116701329222450718650370779377378256763824487113266825897752921404694950377175579004950764089853528414134int, 4002409555221667393417789825735904156556882819939007885332058136124031650490837864442687629129015664037894272559787int, 1);
    lemma_pow_step(2, 24088626287821897715585654866060334571530146762691240027119388516575959353204981nat, 3319816198616620503422443890509275401185398127603758152321788340184763270231121176868930039544300614953813554102727int, 4002409555221667393417789825735904156556882819939007885332058136124031650490837864442687629129015664037894272559787int, 0);
    lemma_pow_step(2, 48177252575643795431171309732120669143060293525382480054238777033151918706409962nat, 1312745281726388837066463108242275300825880339329334256858098269311672144996781916383088381140515730241547567805512int, 4002409555221667393417789825735904156556882819939007885332058136124031650490837864442687629129015664037894272559787int, 1);
    lemma_pow_step(2, 96354505151287590862342619464241338286120587050764960108477554066303837412819925nat, 231061388776657607387627357164563286454665436328853273906342165642579268073188710668446534926746999595239350994719int, 4002409555221667393417789825735904156556882819939007885332058136124031650490837864442687629129015664037894272559787int, 0);
    lemma_pow_step(2, 192709010302575181724685238928482676572241174101529920216955108132607674825639850nat, 3985766890656795363387274190888893450468218899740988139392358579870645094011684969308552676903421381412066849768398int, 4002409555221667393417789825735904156556882819939007885332058136124031650490837864442687629129015664037894272559787int, 1);
    lemma_pow_step(2, 385418020605150363449370477856965353144482348203059840433910216265215349651279701nat, 437544881872642330259420745626924859051582949694953572071842331889529181942862671703676815208151863784466271571441int, 4002409555221667393417789825735904156556882819939007885332058136124031650490837864442687629129015664037894272559787int, 1);
    lemma_pow_step(2, 770836041210300726898740955713930706288964696406119680867820432530430699302559403nat, 2882342907717618699691004827402808497540173595849804281930431348029078440508949130011110803306065072461270082074970int, 4002409555221667393417789825735904156556882819939007885332058136124031650490837864442687629129015664037894272559787int, 1);
    lemma_pow_step(2, 1541672082420601453797481911427861412577929392812239361735640865060861398605118807nat, 3251711338500089310638461751151898021308647224169113748601171602966746242058304921628535527822418300248040220437374int, 4002409555221667393417789825735904156556882819939007885332058136124031650490837864442687629129015664037894272559787int, 1);
    lemma_pow_step(2, 3083344164841202907594963822855722825155858785624478723471281730121722797210237615nat, 3604278138608653604749242219652356713943803473202641142968693419635246101715405287865234791735854748857573452748032int, 4002409555221667393417789825735904156556882819939007885332058136124031650490837864442687629129015664037894272559787int, 1);
    lemma_pow_step(2, 6166688329682405815189927645711445650311717571248957446942563460243445594420475231nat, 1586174485459502302973134035883720042358270881751303673184182392120849303205619599120145831648191202393156962044226int, 4002409555221667393417789825735904156556882819939007885332058136124031650490837864442687629129015664037894272559787int, 1);
    lemma_pow_step(2, 12333376659364811630379855291422891300623435142497914893885126920486891188840950463nat, 1107261484291923416930891274316711848300154474502795351466273434247107090796005317513583001949425688236662124972148int, 4002409555221667393417789825735904156556882819939007885332058136124031650490837864442687629129015664037894272559787int, 1);
    lemma_pow_step(2, 24666753318729623260759710582845782601246870284995829787770253840973782377681900927nat, 3526704938304318426148741188545468582025028504783327115833554792502935393199318275374905569746617227494465535565719int, 4002409555221667393417789825735904156556882819939007885332058136124031650490837864442687629129015664037894272559787int, 1);
    lemma_pow_step(2, 49333506637459246521519421165691565202493740569991659575540507681947564755363801855nat, 1345183770397681977035281765678325883814312329465149404881351081210688735225359974278634318737803410192271996182545int, 4002409555221667393417789825735904156556882819939007885332058136124031650490837864442687629129015664037894272559787int, 1);
    lemma_pow_step(2, 98667013274918493043038842331383130404987481139983319151081015363895129510727603711nat, 308754466007887586850951633286616609119142814785768139556885789603461506778319179122354091312230312640016125238186int, 4002409555221667393417789825735904156556882819939007885332058136124031650490837864442687629129015664037894272559787int, 1);
    lemma_pow_step(2, 197334026549836986086077684662766260809974962279966638302162030727790259021455207423nat, 1169326980398273832173678141952343479554631706248176762283060484014953001956133881607075824559838060511587118069402int, 4002409555221667393417789825735904156556882819939007885332058136124031650490837864442687629129015664037894272559787int, 1);
    lemma_pow_step(2, 394668053099673972172155369325532521619949924559933276604324061455580518042910414847nat, 2974810830074210955448736786610581309481502889897104431558827701334395588356994636551366705517036634262326351120969int, 4002409555221667393417789825735904156556882819939007885332058136124031650490837864442687629129015664037894272559787int, 1);
    lemma_pow_step(2, 789336106199347944344310738651065043239899849119866553208648122911161036085820829695nat, 392235711623268644239414450235215008106274203659416296012921977441950883205135097026519863322566894141975399232874int, 4002409555221667393417789825735904156556882819939007885332058136124031650490837864442687629129015664037894272559787int, 1);
    lemma_pow_step(2, 1578672212398695888688621477302130086479799698239733106417296245822322072171641659391nat, 379209166501152335435886977690085152879797990253623776328884152386091772548649137782887119869583421571323316790388int, 4002409555221667393417789825735904156556882819939007885332058136124031650490837864442687629129015664037894272559787int, 1);
    lemma_pow_step(2, 3157344424797391777377242954604260172959599396479466212834592491644644144343283318783nat, 3597130743165444920021226973880386070406351120076257377986582638531194941109019016373850892272717276857161087243420int, 4002409555221667393417789825735904156556882819939007885332058136124031650490837864442687629129015664037894272559787int, 1);
    lemma_pow_step(2, 6314688849594783554754485909208520345919198792958932425669184983289288288686566637567nat, 354623092416356039813077515239289529469209849359232317180318201059073294564316766871320106775131343007874001599485int, 4002409555221667393417789825735904156556882819939007885332058136124031650490837864442687629129015664037894272559787int, 1);
    lemma_pow_step(2, 12629377699189567109508971818417040691838397585917864851338369966578576577373133275135nat, 3785356652596123085211868964354496044132193068530474057166439202531243974572598919372325203143162370882451487311480int, 4002409555221667393417789825735904156556882819939007885332058136124031650490837864442687629129015664037894272559787int, 1);
    lemma_pow_step(2, 25258755398379134219017943636834081383676795171835729702676739933157153154746266550271nat, 2247218803178502448582724840757342759731781475683745359587361684078231576575817378845557580996388198711380481492715int, 4002409555221667393417789825735904156556882819939007885332058136124031650490837864442687629129015664037894272559787int, 0);
    lemma_pow_step(2, 50517510796758268438035887273668162767353590343671459405353479866314306309492533100542nat, 3412575612036322438666862185545887471263632290360368719923752210137722420963201092032691099935256422299931743764565int, 4002409555221667393417789825735904156556882819939007885332058136124031650490837864442687629129015664037894272559787int, 1);
    lemma_pow_step(2, 101035021593516536876071774547336325534707180687342918810706959732628612618985066201085nat, 3549075440484588863357884919397647337282430850862044149768710255105800680965432174021889620267560860678170861264145int, 4002409555221667393417789825735904156556882819939007885332058136124031650490837864442687629129015664037894272559787int, 0);
    lemma_pow_step(2, 202070043187033073752143549094672651069414361374685837621413919465257225237970132402170nat, 3618520028124259979757052842269758637380897235824982967604121833412099373950128945609260385911222469352050307081921int, 4002409555221667393417789825735904156556882819939007885332058136124031650490837864442687629129015664037894272559787int, 1);
    lemma_pow_step(2, 404140086374066147504287098189345302138828722749371675242827838930514450475940264804341nat, 3515054208529296645411206437769943134114842947573545824672435798572521574309364526307706626263490072763199997514319int, 4002409555221667393417789825735904156556882819939007885332058136124031650490837864442687629129015664037894272559787int, 1);
}

/// Square-and-multiply steps 289 to 336 of `2^4002409555221667393417789825735904156556882819939007885332058136124031650490837864442687629129015664037894272559786` modulo `4002409555221667393417789825735904156556882819939007885332058136124031650490837864442687629129015664037894272559787`.
proof fn power_fq_modulus_full_6()
    requires
        pow(2, 808280172748132295008574196378690604277657445498743350485655677861028900951880529608683nat) % 4002409555221667393417789825735904156556882819939007885332058136124031650490837864442687629129015664037894272559787int == 2707345190506004594788222512267957540447975068274037065520334946415992233256893083786074416244737863288630780199007int,
    ensures
        pow(2, 227510642799965546226860045961524528852173876881523022196464474752930962636744303861330969830818029551nat) % 4002409555221667393417789825735904156556882819939007885332058136124031650490837864442687629129015664037894272559787int == 1092086557722665861055607185987503279648717925120228441241545138711661637151021222886070434349793850899805376469007int,
{
    lemma_pow_step(2, 808280172748132295008574196378690604277657445498743350485655677861028900951880529608683nat, 2707345190506004594788222512267957540447975068274037065520334946415992233256893083786074416244737863288630780199007int, 4002409555221667393417789825735904156556882819939007885332058136124031650490837864442687629129015664037894272559787int, 0);
    lemma_pow_step(2, 1616560345496264590017148392757381208555314890997486700971311355722057801903761059217366nat, 1822518336728505367459395013740349955633588056752299758496186036209082761810992228115102424126018115268205040277309int, 4002409555221667393417789825735904156556882819939007885332058136124031650490837864442687629129015664037894272559787int, 0);
    lemma_pow_step(2, 3233120690992529180034296785514762417110629781994973401942622711444115603807522118434732nat, 3267140848393432162147437461715913152424011843095435753224951023349514803632316175319068788807943085397742190496385int, 4002409555221667393417789825735904156556882819939007885332058136124031650490837864442687629129015664037894272559787int, 0);
    lemma_pow_step(2, 6466241381985058360068593571029524834221259563989946803885245422888231207615044236869464nat, 2283493659315022921435155370934582458670011166804728084050469806847394479088707446277955102259795353858130454359555int, 4002409555221667393417789825735904156556882819939007885332058136124031650490837864442687629129015664037894272559787int, 1);
    lemma_pow_step(2, 12932482763970116720137187142059049668442519127979893607770490845776462415230088473738929nat, 400187962196592876453480282940116385759886441160378355638645763063405514571311763271638960728528254689489497742501int, 4002409555221667393417789825735904156556882819939007885332058136124031650490837864442687629129015664037894272559787int, 0);
    lemma_pow_step(2, 25864965527940233440274374284118099336885038255959787215540981691552924830460176947477858nat, 1116584100690848751859582662249889970431148902592073565106433472328370606626637867001640910243328014166467434498775int, 4002409555221667393417789825735904156556882819939007885332058136124031650490837864442687629129015664037894272559787int, 1);
    lemma_pow_step(2, 51729931055880466880548748568236198673770076511919574431081963383105849660920353894955717nat, 2954860242942532390648587711828204144172299642116895691425427043316248459046883241982682666572906476723497323436745int, 4002409555221667393417789825735904156556882819939007885332058136124031650490837864442687629129015664037894272559787int, 0);
    lemma_pow_step(2, 103459862111760933761097497136472397347540153023839148862163926766211699321840707789911434nat, 3570890216514435161959506513707464197242096067741732257539973615584678822056487076888428456181168533926105173602750int, 4002409555221667393417789825735904156556882819939007885332058136124031650490837864442687629129015664037894272559787int, 1);
    lemma_pow_step(2, 206919724223521867522194994272944794695080306047678297724327853532423398643681415579822869nat, 3676366201428132873896523804608207394219186173058449968854670373707466296601796252895365040030043401821685653042819int, 4002409555221667393417789825735904156556882819939007885332058136124031650490837864442687629129015664037894272559787int, 0);
    lemma_pow_step(2, 413839448447043735044389988545889589390160612095356595448655707064846797287362831159645738nat, 3439501637802257930643737860273812145501772048694345904421812336954763022171019125770663846767687602382523251336331int, 4002409555221667393417789825735904156556882819939007885332058136124031650490837864442687629129015664037894272559787int, 0);
    lemma_pow_step(2, 827678896894087470088779977091779178780321224190713190897311414129693594574725662319291476nat, 3277481692714301598993382779387791259800346007653633032687518067657652480649619846744318973415800213850220964392391int, 4002409555221667393417789825735904156556882819939007885332058136124031650490837864442687629129015664037894272559787int, 1);
    lemma_pow_step(2, 1655357793788174940177559954183558357560642448381426381794622828259387189149451324638582953nat, 380738711067774102237434469094479243301208877386605365616176144045620516559483781525011539670693288440770816550405int, 4002409555221667393417789825735904156556882819939007885332058136124031650490837864442687629129015664037894272559787int, 1);
    lemma_pow_step(2, 3310715587576349880355119908367116715121284896762852763589245656518774378298902649277165907nat, 3555290422139067940749048037921597603820368336904440546073774405350320568492569872654859961997980486693860250643027int, 4002409555221667393417789825735904156556882819939007885332058136124031650490837864442687629129015664037894272559787int, 1);
    lemma_pow_step(2, 6621431175152699760710239816734233430242569793525705527178491313037548756597805298554331815nat, 3400438679026444435009494005872427620934909696340932647973268970671195069905985664883097522794520932775529645147494int, 4002409555221667393417789825735904156556882819939007885332058136124031650490837864442687629129015664037894272559787int, 1);
    lemma_pow_step(2, 13242862350305399521420479633468466860485139587051411054356982626075097513195610597108663631nat, 594152954569067924854072287007829682404739605367056725097698657068460727818198223963167727198224727105136112854566int, 4002409555221667393417789825735904156556882819939007885332058136124031650490837864442687629129015664037894272559787int, 1);
    lemma_pow_step(2, 26485724700610799042840959266936933720970279174102822108713965252150195026391221194217327263nat, 3009828545703497909085254261594796046228829153203610217836271276316732255558342145142550504239367738920118380584087int, 4002409555221667393417789825735904156556882819939007885332058136124031650490837864442687629129015664037894272559787int, 1);
    lemma_pow_step(2, 52971449401221598085681918533873867441940558348205644217427930504300390052782442388434654527nat, 1488323440687129936623711114542279566081618618112220916508038453201846338608976310281255917219934502963458943433662int, 4002409555221667393417789825735904156556882819939007885332058136124031650490837864442687629129015664037894272559787int, 1);
    lemma_pow_step(2, 105942898802443196171363837067747734883881116696411288434855861008600780105564884776869309055nat, 659158825304528029407032334470310011115447038303541446577953851301542653855859084517560653301995131294240899817570int, 4002409555221667393417789825735904156556882819939007885332058136124031650490837864442687629129015664037894272559787int, 1);
    lemma_pow_step(2, 211885797604886392342727674135495469767762233392822576869711722017201560211129769553738618111nat, 693276761575841314686930811438857327752403586735661385964937243271571774581513567106235937379100026434400115272418int, 4002409555221667393417789825735904156556882819939007885332058136124031650490837864442687629129015664037894272559787int, 1);
    lemma_pow_step(2, 423771595209772784685455348270990939535524466785645153739423444034403120422259539107477236223nat, 3742782351718413061403395537323141887195886029440603420096802184731744624513174476269736815228641031548573433398280int, 4002409555221667393417789825735904156556882819939007885332058136124031650490837864442687629129015664037894272559787int, 1);
    lemma_pow_step(2, 847543190419545569370910696541981879071048933571290307478846888068806240844519078214954472447nat, 100277998889120948615004847823781988665839847685511910562327759369057008649569461303052046867525789787577141032981int, 4002409555221667393417789825735904156556882819939007885332058136124031650490837864442687629129015664037894272559787int, 1);
    lemma_pow_step(2, 1695086380839091138741821393083963758142097867142580614957693776137612481689038156429908944895nat, 3780513068543634392297263372120304255353025778633535536558925656431230389919660894760949103143796354367343269606368int, 4002409555221667393417789825735904156556882819939007885332058136124031650490837864442687629129015664037894272559787int, 1);
    lemma_pow_step(2, 3390172761678182277483642786167927516284195734285161229915387552275224963378076312859817889791nat, 1747163195198159603096531986693078811020337244295289746066653666847718283049737761966218111489411526387241591697167int, 4002409555221667393417789825735904156556882819939007885332058136124031650490837864442687629129015664037894272559787int, 1);
    lemma_pow_step(2, 6780345523356364554967285572335855032568391468570322459830775104550449926756152625719635779583nat, 541628745683980356401910348265970067189059638775131265583558054841494470337855488606490317659104120289394504088893int, 4002409555221667393417789825735904156556882819939007885332058136124031650490837864442687629129015664037894272559787int, 1);
    lemma_pow_step(2, 13560691046712729109934571144671710065136782937140644919661550209100899853512305251439271559167nat, 1457884066289423765519294006063047164762318932025474428923513876550395340350361993947460567643768215334971600514361int, 4002409555221667393417789825735904156556882819939007885332058136124031650490837864442687629129015664037894272559787int, 1);
    lemma_pow_step(2, 27121382093425458219869142289343420130273565874281289839323100418201799707024610502878543118335nat, 626415586105238774089848299513938039405872084248399847355662858718916943273420751415726930683217379274745341697965int, 4002409555221667393417789825735904156556882819939007885332058136124031650490837864442687629129015664037894272559787int, 1);
    lemma_pow_step(2, 54242764186850916439738284578686840260547131748562579678646200836403599414049221005757086236671nat, 136242332235522743600997202677375663882362914813836312136115414992613256246827896256718303634476703159870728044104int, 4002409555221667393417789825735904156556882819939007885332058136124031650490837864442687629129015664037894272559787int, 1);
    lemma_pow_step(2, 108485528373701832879476569157373680521094263497125159357292401672807198828098442011514172473343nat, 2675587946107756160740134412665554970987057514534625424840346286612227193078060069934459415699059912907466000829026int, 4002409555221667393417789825735904156556882819939007885332058136124031650490837864442687629129015664037894272559787int, 1);
    lemma_pow_step(2, 216971056747403665758953138314747361042188526994250318714584803345614397656196884023028344946687nat, 3331220896143942133842919581533417661337096202701332359415015255903625001572983150150173379914840270888539564119242int, 4002409555221667393417789825735904156556882819939007885332058136124031650490837864442687629129015664037894272559787int, 1);
    lemma_pow_step(2, 433942113494807331517906276629494722084377053988500637429169606691228795312393768046056689893375nat, 1698936105170790052341506714468835741193769418411219445939070478675221106654969019292802828845429698167098166891868int, 4002409555221667393417789825735904156556882819939007885332058136124031650490837864442687629129015664037894272559787int, 0);
    lemma_pow_step(2, 867884226989614663035812553258989444168754107977001274858339213382457590624787536092113379786750nat, 3601977875884599474183621094308854057397954665946273461700294507465726937430562579539913883110448751839474416498753int, 4002409555221667393417789825735904156556882819939007885332058136124031650490837864442687629129015664037894272559787int, 1);
    lemma_pow_step(2, 1735768453979229326071625106517978888337508215954002549716678426764915181249575072184226759573501nat, 3116851150352615602687584138408856207830780800125565656565715248072204330356442022210054970533725106169051321896806int, 4002409555221667393417789825735904156556882819939007885332058136124031650490837864442687629129015664037894272559787int, 1);
    lemma_pow_step(2, 3471536907958458652143250213035957776675016431908005099433356853529830362499150144368453519147003nat, 3926712059464075298539176230857342650668017229482547148102430891108272894086530619924229813064685262398746849725999int, 4002409555221667393417789825735904156556882819939007885332058136124031650490837864442687629129015664037894272559787int, 1);
    lemma_pow_step(2, 6943073815916917304286500426071915553350032863816010198866713707059660724998300288736907038294007nat, 3258038986673376161725464877651912193151511116110702210431269165680511024479564568814135565988461811403556749189406int, 4002409555221667393417789825735904156556882819939007885332058136124031650490837864442687629129015664037894272559787int, 0);
    lemma_pow_step(2, 13886147631833834608573000852143831106700065727632020397733427414119321449996600577473814076588014nat, 3887822718579598917863111215209853389852761451004605566019076566252257752539780813161511420374420136080290221016939int, 4002409555221667393417789825735904156556882819939007885332058136124031650490837864442687629129015664037894272559787int, 0);
    lemma_pow_step(2, 27772295263667669217146001704287662213400131455264040795466854828238642899993201154947628153176028nat, 432872564091412860753560058484385776039545082741425177336691807492253582470304512904722715294481316940469791323548int, 4002409555221667393417789825735904156556882819939007885332058136124031650490837864442687629129015664037894272559787int, 1);
    lemma_pow_step(2, 55544590527335338434292003408575324426800262910528081590933709656477285799986402309895256306352057nat, 3236273623600998553735376944572777591141090526398837000770544672184743844384788535247618957608183715469934247846951int, 4002409555221667393417789825735904156556882819939007885332058136124031650490837864442687629129015664037894272559787int, 1);
    lemma_pow_step(2, 111089181054670676868584006817150648853600525821056163181867419312954571599972804619790512612704115nat, 3661600116654425560905493095669459487066831974762826342711233333026975033764889770251612782678391866920389817509785int, 4002409555221667393417789825735904156556882819939007885332058136124031650490837864442687629129015664037894272559787int, 1);
    lemma_pow_step(2, 222178362109341353737168013634301297707201051642112326363734838625909143199945609239581025225408231nat, 626063083025269897168672132739616335188599953641581778283653356026696665027524384663323937365012066954950678305534int, 4002409555221667393417789825735904156556882819939007885332058136124031650490837864442687629129015664037894272559787int, 1);
    lemma_pow_step(2, 444356724218682707474336027268602595414402103284224652727469677251818286399891218479162050450816463nat, 2387048091452900996620863216808876903049980597378359042878215415004041395467921558307641268381176568501653306112045int, 4002409555221667393417789825735904156556882819939007885332058136124031650490837864442687629129015664037894272559787int, 1);
    lemma_pow_step(2, 888713448437365414948672054537205190828804206568449305454939354503636572799782436958324100901632927nat, 2022996356575579806807341371004563679948985024527488636130676228372405042113932007110782448675672319106506054920548int, 4002409555221667393417789825735904156556882819939007885332058136124031650490837864442687629129015664037894272559787int, 1);
    lemma_pow_step(2, 1777426896874730829897344109074410381657608413136898610909878709007273145599564873916648201803265855nat, 48397111489127881732859740375452897896225120620309705133825476017150550722454573316899963242749151842897810542397int, 4002409555221667393417789825735904156556882819939007885332058136124031650490837864442687629129015664037894272559787int, 1);
    lemma_pow_step(2, 3554853793749461659794688218148820763315216826273797221819757418014546291199129747833296403606531711nat, 2456080511105791239720585441131125506289056328696198772385452844281895716784521663557902346144608419186818244513174int, 4002409555221667393417789825735904156556882819939007885332058136124031650490837864442687629129015664037894272559787int, 1);
    lemma_pow_step(2, 7109707587498923319589376436297641526630433652547594443639514836029092582398259495666592807213063423nat, 1899087484135866948530223960898364470565853987188662818311077255032138959607564428442189216394142536006487063259250int, 4002409555221667393417789825735904156556882819939007885332058136124031650490837864442687629129015664037894272559787int, 0);
    lemma_pow_step(2, 14219415174997846639178752872595283053260867305095188887279029672058185164796518991333185614426126846nat, 2776915198514019560569472521206856679067241339723635345007410913391521290485321175715315945247159888579751540042704int, 4002409555221667393417789825735904156556882819939007885332058136124031650490837864442687629129015664037894272559787int, 1);
    lemma_pow_step(2, 28438830349995693278357505745190566106521734610190377774558059344116370329593037982666371228852253693nat, 1108512421684348854132454389664994516611830234600475718670425009251247857839601394888350454606082112804504043603153int, 4002409555221667393417789825735904156556882819939007885332058136124031650490837864442687629129015664037894272559787int, 1);
    lemma_pow_step(2, 56877660699991386556715011490381132213043469220380755549116118688232740659186075965332742457704507387nat, 172232935724710216971075362561861289642253475281087572939270560554373699418210220416583309992054102444666585131007int, 4002409555221667393417789825735904156556882819939007885332058136124031650490837864442687629129015664037894272559787int, 1);
    lemma_pow_step(2, 113755321399982773113430022980762264426086938440761511098232237376465481318372151930665484915409014775nat, 3903029378973018697308585854320720709339010969982819695106841760810027051871449985597895618113238405740803036520248int, 4002409555221667393417789825735904156556882819939007885332058136124031650490837864442687629129015664037894272559787int, 1);
}

/// Square-and-multiply steps 337 to 380 of `2^4002409555221667393417789825735904156556882819939007885332058136124031650490837864442687629129015664037894272559786` modulo `4002409555221667393417789825735904156556882819939007885332058136124031650490837864442687629129015664037894272559787`.
proof fn power_fq_modulus_full_7()
    requires
        pow(2, 227510642799965546226860045961524528852173876881523022196464474752930962636744303861330969830818029551nat) % 4002409555221667393417789825735904156556882819939007885332058136124031650490837864442687629129015664037894272559787int == 1092086557722665861055607185987503279648717925120228441241545138711661637151021222886070434349793850899805376469007int,
    ensures
        pow(2, 4002409555221667393417789825735904156556882819939007885332058136124031650490837864442687629129015664037894272559786nat) % 4002409555221667393417789825735904156556882819939007885332058136124031650490837864442687629129015664037894272559787int == 1,
{
    lemma_pow_step(2, 227510642799965546226860045961524528852173876881523022196464474752930962636744303861330969830818029551nat, 1092086557722665861055607185987503279648717925120228441241545138711661637151021222886070434349793850899805376469007int, 4002409555221667393417789825735904156556882819939007885332058136124031650490837864442687629129015664037894272559787int, 1);
    lemma_pow_step(2, 455021285599931092453720091923049057704347753763046044392928949505861925273488607722661939661636059103nat, 766487449101971366299866248139593163652408961272917388489954207156383637633895362441781898572360274111875832071260int, 4002409555221667393417789825735904156556882819939007885332058136124031650490837864442687629129015664037894272559787int, 1);
    lemma_pow_step(2, 910042571199862184907440183846098115408695507526092088785857899011723850546977215445323879323272118207nat, 3743460438709330303777891902249037696923573835229295698533337207869165339996895508345677658464862962609395536469945int, 4002409555221667393417789825735904156556882819939007885332058136124031650490837864442687629129015664037894272559787int, 1);
    lemma_pow_step(2, 1820085142399724369814880367692196230817391015052184177571715798023447701093954430890647758646544236415nat, 534789091344332810412920445177269975746115178666698176753706347968140521950807347582002784025409662737101483367532int, 4002409555221667393417789825735904156556882819939007885332058136124031650490837864442687629129015664037894272559787int, 1);
    lemma_pow_step(2, 3640170284799448739629760735384392461634782030104368355143431596046895402187908861781295517293088472831nat, 2470607329533842934572269598058138546419729166026030212422473932956737688201970837016514460145368965435231391513174int, 4002409555221667393417789825735904156556882819939007885332058136124031650490837864442687629129015664037894272559787int, 1);
    lemma_pow_step(2, 7280340569598897479259521470768784923269564060208736710286863192093790804375817723562591034586176945663nat, 1343193931224896625843814149654536664298406620414264759765531240623702161195157038678628780492627706313813231311685int, 4002409555221667393417789825735904156556882819939007885332058136124031650490837864442687629129015664037894272559787int, 1);
    lemma_pow_step(2, 14560681139197794958519042941537569846539128120417473420573726384187581608751635447125182069172353891327nat, 1672216926064178045778031895981729890333369964067783512586365808039319137342127880595417538921306025660447098767598int, 4002409555221667393417789825735904156556882819939007885332058136124031650490837864442687629129015664037894272559787int, 1);
    lemma_pow_step(2, 29121362278395589917038085883075139693078256240834946841147452768375163217503270894250364138344707782655nat, 3696502831912994712196120984589854085418120482262340169620189761489558303025472410692377807351163667262314015200626int, 4002409555221667393417789825735904156556882819939007885332058136124031650490837864442687629129015664037894272559787int, 1);
    lemma_pow_step(2, 58242724556791179834076171766150279386156512481669893682294905536750326435006541788500728276689415565311nat, 160081491914735975160592730082317975410241469988061492463809279473842747411057094944960534590269925908093798814295int, 4002409555221667393417789825735904156556882819939007885332058136124031650490837864442687629129015664037894272559787int, 1);
    lemma_pow_step(2, 116485449113582359668152343532300558772313024963339787364589811073500652870013083577001456553378831130623nat, 3939546195054240286008437593104905910281187872785921069233455045688548683412101895949111404479946192201419130408932int, 4002409555221667393417789825735904156556882819939007885332058136124031650490837864442687629129015664037894272559787int, 1);
    lemma_pow_step(2, 232970898227164719336304687064601117544626049926679574729179622147001305740026167154002913106757662261247nat, 475794043698617530305247059491600432523932255739134954503927723327638248132553600645930001584928031310263072068583int, 4002409555221667393417789825735904156556882819939007885332058136124031650490837864442687629129015664037894272559787int, 1);
    lemma_pow_step(2, 465941796454329438672609374129202235089252099853359149458359244294002611480052334308005826213515324522495nat, 1770642827300114799067786059248755422887399834443511078692745959140176376074692785875908305153479470018457939803064int, 4002409555221667393417789825735904156556882819939007885332058136124031650490837864442687629129015664037894272559787int, 1);
    lemma_pow_step(2, 931883592908658877345218748258404470178504199706718298916718488588005222960104668616011652427030649044991nat, 1588923118959596679518371918875088645457299516733473001473234383027878144777649168333662273113728816250710225763589int, 4002409555221667393417789825735904156556882819939007885332058136124031650490837864442687629129015664037894272559787int, 1);
    lemma_pow_step(2, 1863767185817317754690437496516808940357008399413436597833436977176010445920209337232023304854061298089983nat, 2219614233325194665119534366496993665795575187140173613063682488404855728940261312804705567208566760903142672168605int, 4002409555221667393417789825735904156556882819939007885332058136124031650490837864442687629129015664037894272559787int, 1);
    lemma_pow_step(2, 3727534371634635509380874993033617880714016798826873195666873954352020891840418674464046609708122596179967nat, 3319221348808425461763009818051904044628562644422263189658190268762928853857321651139804859665803386013783054186737int, 4002409555221667393417789825735904156556882819939007885332058136124031650490837864442687629129015664037894272559787int, 1);
    lemma_pow_step(2, 7455068743269271018761749986067235761428033597653746391333747908704041783680837348928093219416245192359935nat, 1951914665098121999244127906704803019598097951360118490226389239700816032789309383108868403676753582919329266983566int, 4002409555221667393417789825735904156556882819939007885332058136124031650490837864442687629129015664037894272559787int, 1);
    lemma_pow_step(2, 14910137486538542037523499972134471522856067195307492782667495817408083567361674697856186438832490384719871nat, 2925798064865869566081491427008990921547664943354782420784167127698082088113345069110238039345333293989963712429170int, 4002409555221667393417789825735904156556882819939007885332058136124031650490837864442687629129015664037894272559787int, 1);
    lemma_pow_step(2, 29820274973077084075046999944268943045712134390614985565334991634816167134723349395712372877664980769439743nat, 335085136742013643676380476239220852372743666807406906983511974583048614562007237542844600681894301800967737186902int, 4002409555221667393417789825735904156556882819939007885332058136124031650490837864442687629129015664037894272559787int, 1);
    lemma_pow_step(2, 59640549946154168150093999888537886091424268781229971130669983269632334269446698791424745755329961538879487nat, 1226055882270458204071412751235300197912487411898746250273998576017439798825686397834484812975780182366735023801841int, 4002409555221667393417789825735904156556882819939007885332058136124031650490837864442687629129015664037894272559787int, 1);
    lemma_pow_step(2, 119281099892308336300187999777075772182848537562459942261339966539264668538893397582849491510659923077758975nat, 1229879652886234581332216296187670045522732344547699860571946919276272165114670764811421607440266558579924097127487int, 4002409555221667393417789825735904156556882819939007885332058136124031650490837864442687629129015664037894272559787int, 1);
    lemma_pow_step(2, 238562199784616672600375999554151544365697075124919884522679933078529337077786795165698983021319846155517951nat, 3505738189179867607738595259145597475507633321836161756702923856298743054099173431911747825619917461698230871654555int, 4002409555221667393417789825735904156556882819939007885332058136124031650490837864442687629129015664037894272559787int, 1);
    lemma_pow_step(2, 477124399569233345200751999108303088731394150249839769045359866157058674155573590331397966042639692311035903nat, 2940633480324510501568406363004193276602565989951373592451547057171041243458570126396680209968299847040992496116287int, 4002409555221667393417789825735904156556882819939007885332058136124031650490837864442687629129015664037894272559787int, 1);
    lemma_pow_step(2, 954248799138466690401503998216606177462788300499679538090719732314117348311147180662795932085279384622071807nat, 3317782950695422980864666442384721725120974802933543380361546563164319806068631028911061626019669437046877128408418int, 4002409555221667393417789825735904156556882819939007885332058136124031650490837864442687629129015664037894272559787int, 1);
    lemma_pow_step(2, 1908497598276933380803007996433212354925576600999359076181439464628234696622294361325591864170558769244143615nat, 1309558744259461013140307145578773154212507888050276673568322199337811856149438355952462245020916397379391556900697int, 4002409555221667393417789825735904156556882819939007885332058136124031650490837864442687629129015664037894272559787int, 1);
    lemma_pow_step(2, 3816995196553866761606015992866424709851153201998718152362878929256469393244588722651183728341117538488287231nat, 3202024208710358487633480499907287977869556139688893218951448752492440887514344850747678781909528248309743156399701int, 4002409555221667393417789825735904156556882819939007885332058136124031650490837864442687629129015664037894272559787int, 1);
    lemma_pow_step(2, 7633990393107733523212031985732849419702306403997436304725757858512938786489177445302367456682235076976574463nat, 3343248897328337116414145348564562266988934902312883837611810461018816458013785929601620030204744102748549094525062int, 4002409555221667393417789825735904156556882819939007885332058136124031650490837864442687629129015664037894272559787int, 1);
    lemma_pow_step(2, 15267980786215467046424063971465698839404612807994872609451515717025877572978354890604734913364470153953148927nat, 3744842734528159068412420540162708517017723176027671195898184936786440831674769209462674489983672442935674988156198int, 4002409555221667393417789825735904156556882819939007885332058136124031650490837864442687629129015664037894272559787int, 1);
    lemma_pow_step(2, 30535961572430934092848127942931397678809225615989745218903031434051755145956709781209469826728940307906297855nat, 669435201939059637407572448500879540367395411278832296331232585213691693709865667795096129053809551015980780913680int, 4002409555221667393417789825735904156556882819939007885332058136124031650490837864442687629129015664037894272559787int, 1);
    lemma_pow_step(2, 61071923144861868185696255885862795357618451231979490437806062868103510291913419562418939653457880615812595711nat, 2824917531790365405297822058994425168030995534188164581586495093985720913460071889466138603016304367996335361534236int, 4002409555221667393417789825735904156556882819939007885332058136124031650490837864442687629129015664037894272559787int, 1);
    lemma_pow_step(2, 122143846289723736371392511771725590715236902463958980875612125736207020583826839124837879306915761231625191423nat, 3445473532215128117136651425604089221984851070540481851788987415942141308352197846236690694500923347781907141097970int, 4002409555221667393417789825735904156556882819939007885332058136124031650490837864442687629129015664037894272559787int, 0);
    lemma_pow_step(2, 244287692579447472742785023543451181430473804927917961751224251472414041167653678249675758613831522463250382846nat, 1729076672074274003145105349412414794939538424271747302851266643871764883903665177511560371066979331665306103324500int, 4002409555221667393417789825735904156556882819939007885332058136124031650490837864442687629129015664037894272559787int, 1);
    lemma_pow_step(2, 488575385158894945485570047086902362860947609855835923502448502944828082335307356499351517227663044926500765693nat, 3690638577496228158297586907822909459142129237364996065879327565850543436652647617984869387758804832081116385758648int, 4002409555221667393417789825735904156556882819939007885332058136124031650490837864442687629129015664037894272559787int, 0);
    lemma_pow_step(2, 977150770317789890971140094173804725721895219711671847004897005889656164670614712998703034455326089853001531386nat, 946503645848751433834883966753491802833026163441821392231716306834324062056435404777758890133401598659863451926929int, 4002409555221667393417789825735904156556882819939007885332058136124031650490837864442687629129015664037894272559787int, 1);
    lemma_pow_step(2, 1954301540635579781942280188347609451443790439423343694009794011779312329341229425997406068910652179706003062773nat, 873143238587812895191962022507843836414102174951925109255210188760223001750049658460477075722922938300577370646579int, 4002409555221667393417789825735904156556882819939007885332058136124031650490837864442687629129015664037894272559787int, 0);
    lemma_pow_step(2, 3908603081271159563884560376695218902887580878846687388019588023558624658682458851994812137821304359412006125546nat, 2288291996315425102883116072264422529405797990343549056605335675044904199100502452650592207189595162871370560208948int, 4002409555221667393417789825735904156556882819939007885332058136124031650490837864442687629129015664037894272559787int, 1);
    lemma_pow_step(2, 7817206162542319127769120753390437805775161757693374776039176047117249317364917703989624275642608718824012251093nat, 1225292372768102249680764004381676503901589707184635822691156834062052999968657548626227647589785797646316931133899int, 4002409555221667393417789825735904156556882819939007885332058136124031650490837864442687629129015664037894272559787int, 0);
    lemma_pow_step(2, 15634412325084638255538241506780875611550323515386749552078352094234498634729835407979248551285217437648024502186nat, 2005740272984931654918310187294434432201098956276839174088497490912840011746188851637971451280055396852970956208408int, 4002409555221667393417789825735904156556882819939007885332058136124031650490837864442687629129015664037894272559787int, 1);
    lemma_pow_step(2, 31268824650169276511076483013561751223100647030773499104156704188468997269459670815958497102570434875296049004373nat, 3441045094605903837742298521540110547829531551384215130748766484104473191620387566146064559994928351037077479133310int, 4002409555221667393417789825735904156556882819939007885332058136124031650490837864442687629129015664037894272559787int, 0);
    lemma_pow_step(2, 62537649300338553022152966027123502446201294061546998208313408376937994538919341631916994205140869750592098008746nat, 155928614583162339163561976997357670199060505134574593709256282314807694713970060188348409682059708972666018298742int, 4002409555221667393417789825735904156556882819939007885332058136124031650490837864442687629129015664037894272559787int, 1);
    lemma_pow_step(2, 125075298600677106044305932054247004892402588123093996416626816753875989077838683263833988410281739501184196017493nat, 3285655259349664561321344133572663085497459140799006054206402918883551633383457968476183042783138027746045631315682int, 4002409555221667393417789825735904156556882819939007885332058136124031650490837864442687629129015664037894272559787int, 0);
    lemma_pow_step(2, 250150597201354212088611864108494009784805176246187992833253633507751978155677366527667976820563479002368392034986nat, 1759442303924495080929604444476330063927878899477392305186177468588951268314462643839546034983904998348300358720333int, 4002409555221667393417789825735904156556882819939007885332058136124031650490837864442687629129015664037894272559787int, 1);
    lemma_pow_step(2, 500301194402708424177223728216988019569610352492375985666507267015503956311354733055335953641126958004736784069973nat, 2214235370395789877700655639992832746820075038510208203112923339519707470390510672319577244938794186506120697328214int, 4002409555221667393417789825735904156556882819939007885332058136124031650490837864442687629129015664037894272559787int, 0);
    lemma_pow_step(2, 1000602388805416848354447456433976039139220704984751971333014534031007912622709466110671907282253916009473568139946nat, 2973677408986561043442465346520108879172042883009249989176415018091420807192182638567116318576472649347015917690530int, 4002409555221667393417789825735904156556882819939007885332058136124031650490837864442687629129015664037894272559787int, 1);
    lemma_pow_step(2, 2001204777610833696708894912867952078278441409969503942666029068062015825245418932221343814564507832018947136279893nat, 4002409555221667393417789825735904156556882819939007885332058136124031650490837864442687629129015664037894272559786int, 4002409555221667393417789825735904156556882819939007885332058136124031650490837864442687629129015664037894272559787int, 0);
}

/// Square-and-multiply steps 1 to 48 of `2^253663835868735594330404923636534084567099854` modulo `4002409555221667393417789825735904156556882819939007885332058136124031650490837864442687629129015664037894272559787`.
proof fn power_fq_modulus_by_q234_0()
    ensures
        pow(2, 400210966370489) % 4002409555221667393417789825735904156556882819939007885332058136124031650490837864442687629129015664037894272559787int == 88736509401691032456296588913347899189448695684463777685287390726412859736919151831295856282618467359817713459405int,
{
    lemma_pow1(2);
    lemma_small_mod(2, 4002409555221667393417789825735904156556882819939007885332058136124031650490837864442687629129015664037894272559787nat);
    lemma_pow_step(2, 1, 2, 4002409555221667393417789825735904156556882819939007885332058136124031650490837864442687629129015664037894272559787int, 0);
    lemma_pow_step(2, 2, 4, 4002409555221667393417789825735904156556882819939007885332058136124031650490837864442687629129015664037894272559787int, 1);
    lemma_pow_step(2, 5, 32, 4002409555221667393417789825735904156556882819939007885332058136124031650490837864442687629129015664037894272559787int, 1);
    lemma_pow_step(2, 11, 2048, 4002409555221667393417789825735904156556882819939007885332058136124031650490837864442687629129015664037894272559787int, 0);
    lemma_pow_step(2, 22, 4194304, 4002409555221667393417789825735904156556882819939007885332058136124031650490837864442687629129015664037894272559787int, 1);
    lemma_pow_step(2, 45, 35184372088832, 4002409555221667393417789825735904156556882819939007885332058136124031650490837864442687629129015664037894272559787int, 0);
    lemma_pow_step(2, 90, 1237940039285380274899124224int, 4002409555221667393417789825735904156556882819939007885332058136124031650490837864442687629129015664037894272559787int, 1);
    lemma_pow_step(2, 181, 3064991081731777716716694054300618367237478244367204352int, 4002409555221667393417789825735904156556882819939007885332058136124031650490837864442687629129015664037894272559787int, 1);
    lemma_pow_step(2, 363, 18788340662190665823115844774314696219005460391266558965658327772257672200916867547709591987078149624255479808int, 4002409555221667393417789825735904156556882819939007885332058136124031650490837864442687629129015664037894272559787int, 1);
    lemma_pow_step(2, 727, 3919521802062131424959005253841056676288032537044738813469358907520607857194854764828417615413076582032401631479039int, 4002409555221667393417789825735904156556882819939007885332058136124031650490837864442687629129015664037894272559787int, 1);
    lemma_pow_step(2, 1455, 3296161503725729237813357712565848934268663464050891938913401782667837926767459595325967162079918535944829944726423int, 4002409555221667393417789825735904156556882819939007885332058136124031650490837864442687629129015664037894272559787int, 1);
    lemma_pow_step(2, 2911, 2680409954783430308283577729081119806576277160748491557769316598477059777455599290825177858127378852092083020732730int, 4002409555221667393417789825735904156556882819939007885332058136124031650490837864442687629129015664037894272559787int, 1);
    lemma_pow_step(2, 5823, 3220064884152031550993975179579724942627471107597711220626996428380506317272441281618065680972688927991758767334791int, 4002409555221667393417789825735904156556882819939007885332058136124031650490837864442687629129015664037894272559787int, 1);
    lemma_pow_step(2, 11647, 733954942456989037608642099138009103138326208550356062038698365070648884117275787316057267981281962657508284099062int, 4002409555221667393417789825735904156556882819939007885332058136124031650490837864442687629129015664037894272559787int, 1);
    lemma_pow_step(2, 23295, 2022165503866924901818339637651059410837433097607366816579844956718328267005454471386250816027040214343135576630525int, 4002409555221667393417789825735904156556882819939007885332058136124031650490837864442687629129015664037894272559787int, 0);
    lemma_pow_step(2, 46590, 2862136086698134689134288331691250168413163374420745087643607727515783752156907324584145991840880507128045099224469int, 4002409555221667393417789825735904156556882819939007885332058136124031650490837864442687629129015664037894272559787int, 1);
    lemma_pow_step(2, 93181, 992995974553788840734826604047013338447316341919390328402527892876635071710667846635345635748611288506707428651304int, 4002409555221667393417789825735904156556882819939007885332058136124031650490837864442687629129015664037894272559787int, 0);
    lemma_pow_step(2, 186362, 2961978737908282527680843600070176697455688527746895271646031789761896043597472829570713183824624676926572418327963int, 4002409555221667393417789825735904156556882819939007885332058136124031650490837864442687629129015664037894272559787int, 1);
    lemma_pow_step(2, 372725, 2359813122929995484134539004097764783281954454253143811821458572852446872563457671645827160636648643927849052578061int, 4002409555221667393417789825735904156556882819939007885332058136124031650490837864442687629129015664037894272559787int, 1);
    lemma_pow_step(2, 745451, 1693757200749638525828934904186499818685497423193950806912060010702876589470659747801405763958709083327139323382697int, 4002409555221667393417789825735904156556882819939007885332058136124031650490837864442687629129015664037894272559787int, 0);
    lemma_pow_step(2, 1490902, 2437850503768973720264266941319483667063838528682974585004822232091345294796613682261332524737317154080033353824322int, 4002409555221667393417789825735904156556882819939007885332058136124031650490837864442687629129015664037894272559787int, 0);
    lemma_pow_step(2, 2981804, 400725774060717762940063987719698246424215777506062437217277698459999806565824536816574449848585928534930622362813int, 4002409555221667393417789825735904156556882819939007885332058136124031650490837864442687629129015664037894272559787int, 0);
    lemma_pow_step(2, 5963608, 2120280650984091475931080707574875243102798708015227181154818424497054858812038545729663235504159069665130274471985int, 4002409555221667393417789825735904156556882819939007885332058136124031650490837864442687629129015664037894272559787int, 0);
    lemma_pow_step(2, 11927216, 3423280514267446688468542965820844143448093462688468009216984926138082337837604990215065082627969652245536847464664int, 4002409555221667393417789825735904156556882819939007885332058136124031650490837864442687629129015664037894272559787int, 0);
    lemma_pow_step(2, 23854432, 1942161067107985802139153607406868472842686533322103697291552900698995193322188961374309735540169206362707882507433int, 4002409555221667393417789825735904156556882819939007885332058136124031650490837864442687629129015664037894272559787int, 0);
    lemma_pow_step(2, 47708864, 3304534962791658204045137794439929850686938304376693981062700008575427756964844984467313383639533464402897910123317int, 4002409555221667393417789825735904156556882819939007885332058136124031650490837864442687629129015664037894272559787int, 1);
    lemma_pow_step(2, 95417729, 2479993716219643266001679940720799973535860770495011394597334735479656747929021423661617855446109055515067272364677int, 4002409555221667393417789825735904156556882819939007885332058136124031650490837864442687629129015664037894272559787int, 1);
    lemma_pow_step(2, 190835459, 3468062795106462941006021254727675691062726329204899338411839955294932487135888370512756672379284043917175841753199int, 4002409555221667393417789825735904156556882819939007885332058136124031650490837864442687629129015664037894272559787int, 1);
    lemma_pow_step(2, 381670919, 935032602980397343314093666591266710758857220242849262867969431837321935477497276464112669432847745984656330292670int, 4002409555221667393417789825735904156556882819939007885332058136124031650490837864442687629129015664037894272559787int, 1);
    lemma_pow_step(2, 763341839, 3535649918495810966954063753047721303901980647384990542469947015218994142453508532428692178988909186376424568331473int, 4002409555221667393417789825735904156556882819939007885332058136124031650490837864442687629129015664037894272559787int, 1);
    lemma_pow_step(2, 1526683679, 3794658856482229538169194193566539110326929291914172110475780240353032164036955024082419416749761315429842876753451int, 4002409555221667393417789825735904156556882819939007885332058136124031650490837864442687629129015664037894272559787int, 0);
    lemma_pow_step(2, 3053367358, 1286084155904760418115724382613296628498464585484570794620446489710823037635770947152867756172860777518539445242473int, 4002409555221667393417789825735904156556882819939007885332058136124031650490837864442687629129015664037894272559787int, 0);
    lemma_pow_step(2, 6106734716, 3836653836019167863560643240887497935654664880282039851709193818038802256608530278973437165056005253382064035434055int, 4002409555221667393417789825735904156556882819939007885332058136124031650490837864442687629129015664037894272559787int, 0);
    lemma_pow_step(2, 12213469432, 224436718390570178597222911262766684040667967488551775758512735690025152064025869454822096360547847274923419252877int, 4002409555221667393417789825735904156556882819939007885332058136124031650490837864442687629129015664037894272559787int, 1);
    lemma_pow_step(2, 24426938865, 279209075017131127866623620817572177895453280618033742093933027959340888132216290487036061243020257227438617420028int, 4002409555221667393417789825735904156556882819939007885332058136124031650490837864442687629129015664037894272559787int, 0);
    lemma_pow_step(2, 48853877730, 3804259327379360336400417167145324887483403582074755031872244704783128657727022279461673559221307369622564860892142int, 4002409555221667393417789825735904156556882819939007885332058136124031650490837864442687629129015664037894272559787int, 1);
    lemma_pow_step(2, 97707755461, 1929679324716553213857282765087909429361807067052785092719761334240436558981728245623185223798964937612072311568215int, 4002409555221667393417789825735904156556882819939007885332058136124031650490837864442687629129015664037894272559787int, 1);
    lemma_pow_step(2, 195415510923, 198570599822227759081438985324403821162042532746913831283334979131907677524289121361061356590716893158750806030278int, 4002409555221667393417789825735904156556882819939007885332058136124031650490837864442687629129015664037894272559787int, 0);
    lemma_pow_step(2, 390831021846, 3724243335556246780455054635162651884225789372361542319235652447268067593601460611004639705694017655267586985643810int, 4002409555221667393417789825735904156556882819939007885332058136124031650490837864442687629129015664037894272559787int, 0);
    lemma_pow_step(2, 781662043692, 576332516819752275237260188981010595060436410398780417613467821035355743968949702296333606732742833865227387006972int, 4002409555221667393417789825735904156556882819939007885332058136124031650490837864442687629129015664037894272559787int, 0);
    lemma_pow_step(2, 1563324087384, 1294041934258568559403963347320028501056826973189838137203538259080634944838238674530276813636901563008341776737738int, 4002409555221667393417789825735904156556882819939007885332058136124031650490837864442687629129015664037894272559787int, 1);
    lemma_pow_step(2, 3126648174769, 490199762530249272825930191266479732571485890314330073125421802786062257180345133278066894512413617558656630778061int, 4002409555221667393417789825735904156556882819939007885332058136124031650490837864442687629129015664037894272559787int, 0);
    lemma_pow_step(2, 6253296349538, 2718336452962228179003856772592306766371288849927515120080170322544166852437356117107367821451974994618734164910088int, 4002409555221667393417789825735904156556882819939007885332058136124031650490837864442687629129015664037894272559787int, 1);
    lemma_pow_step(2, 12506592699077, 1255468858334401625064443453328141802532860536351443020233898725289580886748923866589846946782554918341785736496978int, 4002409555221667393417789825735904156556882819939007885332058136124031650490837864442687629129015664037894272559787int, 1);
    lemma_pow_step(2, 25013185398155, 544131126067603277759993586135279625853938686199042199391678739525054309742663638892428458916415444395890451505026int, 4002409555221667393417789825735904156556882819939007885332058136124031650490837864442687629129015664037894272559787int, 1);
    lemma_pow_step(2, 50026370796311, 3197786958636951532368537358476180204118578703398290942504183171692635918333393978947265254732903290039474311459908int, 4002409555221667393417789825735904156556882819939007885332058136124031650490837864442687629129015664037894272559787int, 0);
    lemma_pow_step(2, 100052741592622, 1204740213124592541294483221739457492865239818064942228319746282235440988630896019907863555477689155685353280929531int, 4002409555221667393417789825735904156556882819939007885332058136124031650490837864442687629129015664037894272559787int, 0);
    lemma_pow_step(2, 200105483185244, 2868003168950156398674129041108555820360635858834510196742388314912359055485872179794549372103978371670427296838320int, 4002409555221667393417789825735904156556882819939007885332058136124031650490837864442687629129015664037894272559787int, 1);
}

/// Square-and-multiply steps 49 to 96 of `2^253663835868735594330404923636534084567099854` modulo `4002409555221667393417789825735904156556882819939007885332058136124031650490837864442687629129015664037894272559787`.
proof fn power_fq_modulus_by_q234_1()
    requires
        pow(2, 400210966370489) % 4002409555221667393417789825735904156556882819939007885332058136124031650490837864442687629129015664037894272559787int == 88736509401691032456296588913347899189448695684463777685287390726412859736919151831295856282618467359817713459405int,
    ensures
        pow(2, 112649372438482761862490432685nat) % 4002409555221667393417789825735904156556882819939007885332058136124031650490837864442687629129015664037894272559787int == 2673690476053918898265778636482764101818191114205202966309183265929571915539202313714909581519121947741221276708282int,
{
    lemma_pow_step(2, 400210966370489, 88736509401691032456296588913347899189448695684463777685287390726412859736919151831295856282618467359817713459405int, 4002409555221667393417789825735904156556882819939007885332058136124031650490837864442687629129015664037894272559787int, 1);
    lemma_pow_step(2, 800421932740979, 1869719452766582101174120424379862514802438054015599996167978743903920626881143533255590943151592509642168900536964int, 4002409555221667393417789825735904156556882819939007885332058136124031650490837864442687629129015664037894272559787int, 1);
    lemma_pow_step(2, 1600843865481959, 2162065446871880445476045372848520509061610371224486871324950740913554572966775879590829831710322378862978507702536int, 4002409555221667393417789825735904156556882819939007885332058136124031650490837864442687629129015664037894272559787int, 0);
    lemma_pow_step(2, 3201687730963918, 3352602233475649859724382576318126892429627627715971160145499686059738623490391184558168918049520718717349753083140int, 4002409555221667393417789825735904156556882819939007885332058136124031650490837864442687629129015664037894272559787int, 1);
    lemma_pow_step(2, 6403375461927837, 2607118637763398286240506979666472014659537962234985956910119722373044264649856347162200841001104361349307326434195int, 4002409555221667393417789825735904156556882819939007885332058136124031650490837864442687629129015664037894272559787int, 1);
    lemma_pow_step(2, 12806750923855675, 1330772920202939671346574452555318178948626993762611774764015399079695637176263856905487974283317922955796200299073int, 4002409555221667393417789825735904156556882819939007885332058136124031650490837864442687629129015664037894272559787int, 0);
    lemma_pow_step(2, 25613501847711350, 78215761957102304023980991414707246157918649228729843281409889562402026378113896855151451783118929220897564659824int, 4002409555221667393417789825735904156556882819939007885332058136124031650490837864442687629129015664037894272559787int, 0);
    lemma_pow_step(2, 51227003695422700, 3842950762733349333694696071902787756792032325803762125537072631300954403238222530116960883850325672298404053578101int, 4002409555221667393417789825735904156556882819939007885332058136124031650490837864442687629129015664037894272559787int, 1);
    lemma_pow_step(2, 102454007390845401, 452398132842340612616423233835762583379006551197570386127762069635485742825720004381469925331947288821524814704129int, 4002409555221667393417789825735904156556882819939007885332058136124031650490837864442687629129015664037894272559787int, 0);
    lemma_pow_step(2, 204908014781690802, 3065946085608970255522034235504334900923322898469250496149693411480765348202097221001690568851635322678420491052360int, 4002409555221667393417789825735904156556882819939007885332058136124031650490837864442687629129015664037894272559787int, 1);
    lemma_pow_step(2, 409816029563381605, 369514399305129574676608223953508217668295041549899915957235227364954542989695012857108306808101011404297934772600int, 4002409555221667393417789825735904156556882819939007885332058136124031650490837864442687629129015664037894272559787int, 0);
    lemma_pow_step(2, 819632059126763210, 3606143505791073430761795735117276933901923395598557084419518143286920366651974578079966843093970179268291607672385int, 4002409555221667393417789825735904156556882819939007885332058136124031650490837864442687629129015664037894272559787int, 1);
    lemma_pow_step(2, 1639264118253526421, 3710077856063345056433419128812144992466782906768457612946893365774570385881326815776618405792419149326681054289346int, 4002409555221667393417789825735904156556882819939007885332058136124031650490837864442687629129015664037894272559787int, 0);
    lemma_pow_step(2, 3278528236507052842, 3109447339731799443755377161193457219260093529279679406400503020318921348367794317219484564204097576850877762185610int, 4002409555221667393417789825735904156556882819939007885332058136124031650490837864442687629129015664037894272559787int, 1);
    lemma_pow_step(2, 6557056473014105685, 297197166929393128463992431098770100485939861836032672321296081068744947635287195915090707492901273238019889749961int, 4002409555221667393417789825735904156556882819939007885332058136124031650490837864442687629129015664037894272559787int, 0);
    lemma_pow_step(2, 13114112946028211370nat, 2112237034107906136894405319366962765827744305094903910177470426396392004146858228463267374539511262182967643094220int, 4002409555221667393417789825735904156556882819939007885332058136124031650490837864442687629129015664037894272559787int, 1);
    lemma_pow_step(2, 26228225892056422741nat, 3354645097365244886652008615837121200953131589622367234878798482136395504882139321189198381125618487828326325500654int, 4002409555221667393417789825735904156556882819939007885332058136124031650490837864442687629129015664037894272559787int, 1);
    lemma_pow_step(2, 52456451784112845483nat, 2133476357911679346896506286847057585273772097581792424965218612485872109622932305911029796063783852503926768316677int, 4002409555221667393417789825735904156556882819939007885332058136124031650490837864442687629129015664037894272559787int, 0);
    lemma_pow_step(2, 104912903568225690966nat, 1184071388506586159525467755045272184169787151936099663727729186684708183052431708696073845251450007157286745752697int, 4002409555221667393417789825735904156556882819939007885332058136124031650490837864442687629129015664037894272559787int, 1);
    lemma_pow_step(2, 209825807136451381933nat, 3611140405997888809294882097089269638978192283071205930065844230719227258941802626317742406511966395891870924265107int, 4002409555221667393417789825735904156556882819939007885332058136124031650490837864442687629129015664037894272559787int, 1);
    lemma_pow_step(2, 419651614272902763867nat, 2933318150133527098216009349318599722871252999824372449108260107175333513000764411617454907556562378516300010165048int, 4002409555221667393417789825735904156556882819939007885332058136124031650490837864442687629129015664037894272559787int, 1);
    lemma_pow_step(2, 839303228545805527735nat, 1762142414427013433207374233551305890922648360313451936263845944140363089002895798788899387732846045097525082267997int, 4002409555221667393417789825735904156556882819939007885332058136124031650490837864442687629129015664037894272559787int, 0);
    lemma_pow_step(2, 1678606457091611055470nat, 1092634192648061370211032313381376362235417395753427387353772007190702773545271803715677429508978329047325294278751int, 4002409555221667393417789825735904156556882819939007885332058136124031650490837864442687629129015664037894272559787int, 1);
    lemma_pow_step(2, 3357212914183222110941nat, 819098781023918443377687262154431616336071163333757441626846132419615008041803580114268951662672505085251422181544int, 4002409555221667393417789825735904156556882819939007885332058136124031650490837864442687629129015664037894272559787int, 1);
    lemma_pow_step(2, 6714425828366444221883nat, 165345201936207759018021650713872518423188574593769748619656450583262713355578590529036123479436351492240585919645int, 4002409555221667393417789825735904156556882819939007885332058136124031650490837864442687629129015664037894272559787int, 0);
    lemma_pow_step(2, 13428851656732888443766nat, 382936536594296654932527024947936895367055837450725660407877216668905488363896586832376079880651638057819789434757int, 4002409555221667393417789825735904156556882819939007885332058136124031650490837864442687629129015664037894272559787int, 1);
    lemma_pow_step(2, 26857703313465776887533nat, 1970807187058092075957374298928440435788491810960150004137719629848348593543609677317091844570124164288047204102182int, 4002409555221667393417789825735904156556882819939007885332058136124031650490837864442687629129015664037894272559787int, 1);
    lemma_pow_step(2, 53715406626931553775067nat, 258159196240749264031972299826083192861469411241980430562684882690731490095467840371845605660847484878375122270505int, 4002409555221667393417789825735904156556882819939007885332058136124031650490837864442687629129015664037894272559787int, 1);
    lemma_pow_step(2, 107430813253863107550135nat, 2719680729951503058079379742676904113119792756443154728039052357897722264020253368907275336084802796416675299835958int, 4002409555221667393417789825735904156556882819939007885332058136124031650490837864442687629129015664037894272559787int, 0);
    lemma_pow_step(2, 214861626507726215100270nat, 1049695603158094836847571953584655720876502360281211411275459981927703280436576069014456541994010045237934907642640int, 4002409555221667393417789825735904156556882819939007885332058136124031650490837864442687629129015664037894272559787int, 0);
    lemma_pow_step(2, 429723253015452430200540nat, 887911776069354087270239714417277011395508315657356334155227137176312922157989162628839539231944687480779383320349int, 4002409555221667393417789825735904156556882819939007885332058136124031650490837864442687629129015664037894272559787int, 0);
    lemma_pow_step(2, 859446506030904860401080nat, 2131224788310019672701583390728459534928042539061802837762224201983492467083958920588380469640163541399855914363829int, 4002409555221667393417789825735904156556882819939007885332058136124031650490837864442687629129015664037894272559787int, 1);
    lemma_pow_step(2, 1718893012061809720802161nat, 2660298527637544927528694974023709754620850129905208014867006077937622367690963888277224939608416676877118517605355int, 4002409555221667393417789825735904156556882819939007885332058136124031650490837864442687629129015664037894272559787int, 0);
    lemma_pow_step(2, 3437786024123619441604322nat, 233814150799629383155106541683991257502873851589122414861222050086982671758382800194000591541148063386884995436719int, 4002409555221667393417789825735904156556882819939007885332058136124031650490837864442687629129015664037894272559787int, 0);
    lemma_pow_step(2, 6875572048247238883208644nat, 1253520845337863812549837325472173646273555993633423404048224486836384375518018127344004850813217598067887441116145int, 4002409555221667393417789825735904156556882819939007885332058136124031650490837864442687629129015664037894272559787int, 1);
    lemma_pow_step(2, 13751144096494477766417289nat, 895012189099965766114059802883405475643995759765502490866543755793690283466193817984139159375558632238545367459740int, 4002409555221667393417789825735904156556882819939007885332058136124031650490837864442687629129015664037894272559787int, 0);
    lemma_pow_step(2, 27502288192988955532834578nat, 3636106912450072614079798011697325355130858158301555284128008547106947123574837898092656378226733747041375376228463int, 4002409555221667393417789825735904156556882819939007885332058136124031650490837864442687629129015664037894272559787int, 0);
    lemma_pow_step(2, 55004576385977911065669156nat, 2780372400738447251828934694395018603451548074309925774744089204463481893936505545501506703958119660600770000401774int, 4002409555221667393417789825735904156556882819939007885332058136124031650490837864442687629129015664037894272559787int, 1);
    lemma_pow_step(2, 110009152771955822131338313nat, 560669599412825220325023979479654349338706658217066519628980103181120053183832816885180965741560933295546728430625int, 4002409555221667393417789825735904156556882819939007885332058136124031650490837864442687629129015664037894272559787int, 0);
    lemma_pow_step(2, 220018305543911644262676626nat, 449245345403689641214686583000264746778702938751423046882910077929857138186018410020020292728627549649984893281032int, 4002409555221667393417789825735904156556882819939007885332058136124031650490837864442687629129015664037894272559787int, 0);
    lemma_pow_step(2, 440036611087823288525353252nat, 3617119689961801049318608672072442380846235616224136036878282830492407553793238280314682270080248349121924360843946int, 4002409555221667393417789825735904156556882819939007885332058136124031650490837864442687629129015664037894272559787int, 1);
    lemma_pow_step(2, 880073222175646577050706505nat, 1979436732366627863825242328036049385375900444295299046584668624617048468500257173653827382810240994193979506692994int, 4002409555221667393417789825735904156556882819939007885332058136124031650490837864442687629129015664037894272559787int, 0);
    lemma_pow_step(2, 1760146444351293154101413010nat, 109216697262479235889207306460600809212845755268834178988208835284687691949064146409703422723133527474939901882019int, 4002409555221667393417789825735904156556882819939007885332058136124031650490837864442687629129015664037894272559787int, 1);
    lemma_pow_step(2, 3520292888702586308202826021nat, 542454896040203856038924230584296192980916556685193524417784444363550485953749792917706585383606277962298174876777int, 4002409555221667393417789825735904156556882819939007885332058136124031650490837864442687629129015664037894272559787int, 0);
    lemma_pow_step(2, 7040585777405172616405652042nat, 1482733330611393301896708358147823608171950466273521996395829821071227180718665431388701532189874851890895008079028int, 4002409555221667393417789825735904156556882819939007885332058136124031650490837864442687629129015664037894272559787int, 1);
    lemma_pow_step(2, 14081171554810345232811304085nat, 984638360506913501661500238655205201890282786648476452669153707149909615307811681168596732204111749708051378391884int, 4002409555221667393417789825735904156556882819939007885332058136124031650490837864442687629129015664037894272559787int, 1);
    lemma_pow_step(2, 28162343109620690465622608171nat, 3427055928590500031071988205455611816536077066919715885287030588880770750025505547630956781329142836387380123282736int, 4002409555221667393417789825735904156556882819939007885332058136124031650490837864442687629129015664037894272559787int, 0);
    lemma_pow_step(2, 56324686219241380931245216342nat, 829315440424542535519867199582577404598987346949427693186896993105376685229395581235594649976596032838631993795421int, 4002409555221667393417789825735904156556882819939007885332058136124031650490837864442687629129015664037894272559787int, 1);
}

/// Square-and-multiply steps 97 to 144 of `2^253663835868735594330404923636534084567099854` modulo `4002409555221667393417789825735904156556882819939007885332058136124031650490837864442687629129015664037894272559787`.
proof fn power_fq_modulus_by_q234_2()
    requires
        pow(2, 112649372438482761862490432685nat) % 4002409555221667393417789825735904156556882819939007885332058136124031650490837864442687629129015664037894272559787int == 2673690476053918898265778636482764101818191114205202966309183265929571915539202313714909581519121947741221276708282int,
    ensures
        pow(2, 31707979483591949291300615454566760570887481nat) % 4002409555221667393417789825735904156556882819939007885332058136124031650490837864442687629129015664037894272559787int == 3813185726743479170040794700504513766045844425173890051895379712456021985110556281591303880787091857201797730351749int,
{
    lemma_pow_step(2, 112649372438482761862490432685nat, 2673690476053918898265778636482764101818191114205202966309183265929571915539202313714909581519121947741221276708282int, 4002409555221667393417789825735904156556882819939007885332058136124031650490837864442687629129015664037894272559787int, 1);
    lemma_pow_step(2, 225298744876965523724980865371nat, 1524114518364781977465044015909378888998767973817608382015723587851646929254870946412236166018005943216161184105676int, 4002409555221667393417789825735904156556882819939007885332058136124031650490837864442687629129015664037894272559787int, 0);
    lemma_pow_step(2, 450597489753931047449961730742nat, 3710730667344799211280459837117540130762280018848429683878519302370900161091572983793782432626311103990162679281835int, 4002409555221667393417789825735904156556882819939007885332058136124031650490837864442687629129015664037894272559787int, 1);
    lemma_pow_step(2, 901194979507862094899923461485nat, 1185418425802678441577445241043320835180886538963512827575487094619295245102043474900943305940192299142893047546090int, 4002409555221667393417789825735904156556882819939007885332058136124031650490837864442687629129015664037894272559787int, 0);
    lemma_pow_step(2, 1802389959015724189799846922970nat, 3603066346917085735685183727568737151511240000181657859431657484048888823430364409308497233111881356974424845579725int, 4002409555221667393417789825735904156556882819939007885332058136124031650490837864442687629129015664037894272559787int, 0);
    lemma_pow_step(2, 3604779918031448379599693845940nat, 2198533593765137584315194530182653137685999554547844688718390971685010700598137087829092418103685355451502238069650int, 4002409555221667393417789825735904156556882819939007885332058136124031650490837864442687629129015664037894272559787int, 0);
    lemma_pow_step(2, 7209559836062896759199387691880nat, 89031747555734221657590533999952239523293678701966310344704449756698375705483812758885020978502951922027440011553int, 4002409555221667393417789825735904156556882819939007885332058136124031650490837864442687629129015664037894272559787int, 0);
    lemma_pow_step(2, 14419119672125793518398775383760nat, 2111544136550399743234854628740291226862926069868108862984509912395888367566836142525846165442238610337116941369784int, 4002409555221667393417789825735904156556882819939007885332058136124031650490837864442687629129015664037894272559787int, 0);
    lemma_pow_step(2, 28838239344251587036797550767520nat, 1101698492687309278539752809253308717343176478640656113705391985502180873378194945842640219958387020455628713114096int, 4002409555221667393417789825735904156556882819939007885332058136124031650490837864442687629129015664037894272559787int, 1);
    lemma_pow_step(2, 57676478688503174073595101535041nat, 217354000064704908683429998966320706711034335912989224978443379030312884391270931776221018458582219777151998868515int, 4002409555221667393417789825735904156556882819939007885332058136124031650490837864442687629129015664037894272559787int, 1);
    lemma_pow_step(2, 115352957377006348147190203070083nat, 500030302312713689962639134928122231400815212159475843543277658723140042223064941077685913842985414641842234737409int, 4002409555221667393417789825735904156556882819939007885332058136124031650490837864442687629129015664037894272559787int, 0);
    lemma_pow_step(2, 230705914754012696294380406140166nat, 3879393873979532939614091305996677478581102397620773017415722928972593642715504313974490552756357118181633872975858int, 4002409555221667393417789825735904156556882819939007885332058136124031650490837864442687629129015664037894272559787int, 0);
    lemma_pow_step(2, 461411829508025392588760812280332nat, 3486512682147195320189313027491623623402080611657135573235400022134967614557528411721782754736935365677139898175571int, 4002409555221667393417789825735904156556882819939007885332058136124031650490837864442687629129015664037894272559787int, 0);
    lemma_pow_step(2, 922823659016050785177521624560664nat, 1885169807403855178002574396019029260311715167785788909438662436397318811257248320070628548612587884127927448454830int, 4002409555221667393417789825735904156556882819939007885332058136124031650490837864442687629129015664037894272559787int, 1);
    lemma_pow_step(2, 1845647318032101570355043249121329nat, 2634947840938738658058349680210738921043055769284556595174466314934227102337917909256020305721418886648370711841264int, 4002409555221667393417789825735904156556882819939007885332058136124031650490837864442687629129015664037894272559787int, 0);
    lemma_pow_step(2, 3691294636064203140710086498242658nat, 1016780695691350470960555854909603196670304913127813161880928335640685475335564948118744407226817952498293281687301int, 4002409555221667393417789825735904156556882819939007885332058136124031650490837864442687629129015664037894272559787int, 1);
    lemma_pow_step(2, 7382589272128406281420172996485317nat, 1481654339064967496450393606131809563461154185767808482938206917136455295862632652427694631246214401746609445956371int, 4002409555221667393417789825735904156556882819939007885332058136124031650490837864442687629129015664037894272559787int, 0);
    lemma_pow_step(2, 14765178544256812562840345992970634nat, 2501976571065942164548558084096032503936662271849176385590715921649567018706612314950701091776267404230315638599104int, 4002409555221667393417789825735904156556882819939007885332058136124031650490837864442687629129015664037894272559787int, 1);
    lemma_pow_step(2, 29530357088513625125680691985941269nat, 2463901680657654216323035746261071223857049600437786655956538458158544527504980598886636472751450715892547648338516int, 4002409555221667393417789825735904156556882819939007885332058136124031650490837864442687629129015664037894272559787int, 0);
    lemma_pow_step(2, 59060714177027250251361383971882538nat, 101115290206579505839844746918454595766018734065751670244976922199205650970576828864498592310387106167425578998784int, 4002409555221667393417789825735904156556882819939007885332058136124031650490837864442687629129015664037894272559787int, 0);
    lemma_pow_step(2, 118121428354054500502722767943765076nat, 2024608234198611428237063272326458752503062244583343973980424994216781649526418561462185452262422127421973184265721int, 4002409555221667393417789825735904156556882819939007885332058136124031650490837864442687629129015664037894272559787int, 0);
    lemma_pow_step(2, 236242856708109001005445535887530152nat, 3532500476707720042856845042741460242165825657729477353400098773876003723243343225742115926567662464612159822706002int, 4002409555221667393417789825735904156556882819939007885332058136124031650490837864442687629129015664037894272559787int, 0);
    lemma_pow_step(2, 472485713416218002010891071775060304nat, 1778554612386526795880309444963705977216152415809712147628275305058148302164422343482870048846888327015188644985055int, 4002409555221667393417789825735904156556882819939007885332058136124031650490837864442687629129015664037894272559787int, 1);
    lemma_pow_step(2, 944971426832436004021782143550120609nat, 3305051711498893078475211643567547963078684775870868176431874290926983998453163468220874492620959715013289747589905int, 4002409555221667393417789825735904156556882819939007885332058136124031650490837864442687629129015664037894272559787int, 0);
    lemma_pow_step(2, 1889942853664872008043564287100241218nat, 2200575262071055526261748995166619538822170511931823563166188871884715457260732904438649097710303943976808177373276int, 4002409555221667393417789825735904156556882819939007885332058136124031650490837864442687629129015664037894272559787int, 0);
    lemma_pow_step(2, 3779885707329744016087128574200482436nat, 980420178208216061182687283496313205035985926733963877606769560621731430843516134149730269885302288126960914014645int, 4002409555221667393417789825735904156556882819939007885332058136124031650490837864442687629129015664037894272559787int, 1);
    lemma_pow_step(2, 7559771414659488032174257148400964873nat, 3189582800272809598606683762352467963701759778055432137919559590740858362725488938045061303785115971506742046334249int, 4002409555221667393417789825735904156556882819939007885332058136124031650490837864442687629129015664037894272559787int, 0);
    lemma_pow_step(2, 15119542829318976064348514296801929746nat, 1103785701672056486752556200930948888669334141363757591891014758657937475781652576164584219523245600769689046377387int, 4002409555221667393417789825735904156556882819939007885332058136124031650490837864442687629129015664037894272559787int, 0);
    lemma_pow_step(2, 30239085658637952128697028593603859492nat, 3429531431073282406148677533063846636952075030316215690389289848658200863867139207134111813836003551657525384922966int, 4002409555221667393417789825735904156556882819939007885332058136124031650490837864442687629129015664037894272559787int, 0);
    lemma_pow_step(2, 60478171317275904257394057187207718984nat, 3786524637657423295474911573046243497023188621066980552470584608734583270371880941492196824816558536202996624442777int, 4002409555221667393417789825735904156556882819939007885332058136124031650490837864442687629129015664037894272559787int, 0);
    lemma_pow_step(2, 120956342634551808514788114374415437968nat, 665402785078717336894285197282291143079807339999017260731302778211142690800845286211696272777696446681477393945375int, 4002409555221667393417789825735904156556882819939007885332058136124031650490837864442687629129015664037894272559787int, 1);
    lemma_pow_step(2, 241912685269103617029576228748830875937nat, 1490599409744678434343957783728444528612664514625828156546605871279376686988507889934836447864959225871483409962634int, 4002409555221667393417789825735904156556882819939007885332058136124031650490837864442687629129015664037894272559787int, 1);
    lemma_pow_step(2, 483825370538207234059152457497661751875nat, 383795504201735933633039440894634899918934386220570376288646730275178722944683280623610386330863808857114402010133int, 4002409555221667393417789825735904156556882819939007885332058136124031650490837864442687629129015664037894272559787int, 0);
    lemma_pow_step(2, 967650741076414468118304914995323503750nat, 1089861368545621080865348180338577127237185607312897782059403415306974896402471680193260353033846598162831974040853int, 4002409555221667393417789825735904156556882819939007885332058136124031650490837864442687629129015664037894272559787int, 0);
    lemma_pow_step(2, 1935301482152828936236609829990647007500nat, 420198484777662886859170223428927792251187469306961977848815190635586359426281683538875939987295434165240118843244int, 4002409555221667393417789825735904156556882819939007885332058136124031650490837864442687629129015664037894272559787int, 0);
    lemma_pow_step(2, 3870602964305657872473219659981294015000nat, 1389336581221874997605683567742780901808533076480814434688275073365457687848872666792835422999880641011270431453275int, 4002409555221667393417789825735904156556882819939007885332058136124031650490837864442687629129015664037894272559787int, 1);
    lemma_pow_step(2, 7741205928611315744946439319962588030001nat, 1090193774217997126022256094072188092918386280405914554480144159952185390225546384303890048170224071528716908523255int, 4002409555221667393417789825735904156556882819939007885332058136124031650490837864442687629129015664037894272559787int, 1);
    lemma_pow_step(2, 15482411857222631489892878639925176060003nat, 3072149295269659656820141896451822387062266491560381441172123022853263142057135355493484452032408942786432309411256int, 4002409555221667393417789825735904156556882819939007885332058136124031650490837864442687629129015664037894272559787int, 1);
    lemma_pow_step(2, 30964823714445262979785757279850352120007nat, 1936655940968221174584366786078165991992398917839438589145076180376603577103238450603518276149097835532347994493816int, 4002409555221667393417789825735904156556882819939007885332058136124031650490837864442687629129015664037894272559787int, 0);
    lemma_pow_step(2, 61929647428890525959571514559700704240014nat, 438952240139223719662304129622304183496257923511515913881242916220890115213598163790508403994779555384437562042814int, 4002409555221667393417789825735904156556882819939007885332058136124031650490837864442687629129015664037894272559787int, 1);
    lemma_pow_step(2, 123859294857781051919143029119401408480029nat, 3735862301612407419315422195970945182038030520213254266863398712964909423548856565504184895814991566855372460079415int, 4002409555221667393417789825735904156556882819939007885332058136124031650490837864442687629129015664037894272559787int, 0);
    lemma_pow_step(2, 247718589715562103838286058238802816960058nat, 2977158662336455457919774536861535537544365749851172925268293152683738869386846758555273961495347432511594301949057int, 4002409555221667393417789825735904156556882819939007885332058136124031650490837864442687629129015664037894272559787int, 0);
    lemma_pow_step(2, 495437179431124207676572116477605633920116nat, 3956426077713821707730262134325771614688640849803073069456756687483789308779971147993933483596933698929571975033177int, 4002409555221667393417789825735904156556882819939007885332058136124031650490837864442687629129015664037894272559787int, 1);
    lemma_pow_step(2, 990874358862248415353144232955211267840233nat, 2085950761714381203153509414851629261696796568343206247367993231926644951403506422626279715067992575491109569443360int, 4002409555221667393417789825735904156556882819939007885332058136124031650490837864442687629129015664037894272559787int, 1);
    lemma_pow_step(2, 1981748717724496830706288465910422535680467nat, 1774979796369742164404387843833586294266095538277661674743952861937540948441208009167533090415764176945347948096445int, 4002409555221667393417789825735904156556882819939007885332058136124031650490837864442687629129015664037894272559787int, 1);
    lemma_pow_step(2, 3963497435448993661412576931820845071360935nat, 2969556454693315662997507638489142827642855726584053875128980448441414136220686245237273898260263101032295500407731int, 4002409555221667393417789825735904156556882819939007885332058136124031650490837864442687629129015664037894272559787int, 0);
    lemma_pow_step(2, 7926994870897987322825153863641690142721870nat, 2252953668411663518127276005296655697051453967546136027058747111680188857351414435477393529360015829518555496583045int, 4002409555221667393417789825735904156556882819939007885332058136124031650490837864442687629129015664037894272559787int, 0);
    lemma_pow_step(2, 15853989741795974645650307727283380285443740nat, 1991918078809597794678604367301732954725679495449377486303538623448594736692810189508250517716134961969138540669515int, 4002409555221667393417789825735904156556882819939007885332058136124031650490837864442687629129015664037894272559787int, 1);
}

/// Square-and-multiply steps 145 to 147 of `2^253663835868735594330404923636534084567099854` modulo `4002409555221667393417789825735904156556882819939007885332058136124031650490837864442687629129015664037894272559787`.
proof fn power_fq_modulus_by_q234_3()
    requires
        pow(2, 31707979483591949291300615454566760570887481nat) % 4002409555221667393417789825735904156556882819939007885332058136124031650490837864442687629129015664037894272559787int == 3813185726743479170040794700504513766045844425173890051895379712456021985110556281591303880787091857201797730351749int,
    ensures
        pow(2, 253663835868735594330404923636534084567099854nat) % 4002409555221667393417789825735904156556882819939007885332058136124031650490837864442687629129015664037894272559787int == 3857652229587791131170562170362777322661165158253241750951056708149380781976590789690115968560841332125271833377494int,
{
    lemma_pow_step(2, 31707979483591949291300615454566760570887481nat, 3813185726743479170040794700504513766045844425173890051895379712456021985110556281591303880787091857201797730351749int, 4002409555221667393417789825735904156556882819939007885332058136124031650490837864442687629129015664037894272559787int, 1);
    lemma_pow_step(2, 63415958967183898582601230909133521141774963nat, 3298330630902749174649688042061640792277721572638698267922347393375628268863343297963882391830923085358637055568488int, 4002409555221667393417789825735904156556882819939007885332058136124031650490837864442687629129015664037894272559787int, 1);
    lemma_pow_step(2, 126831917934367797165202461818267042283549927nat, 1450523488060511606189431607547217864264022720280208010964713294464426931221135074614687277839729438898961634064476int, 4002409555221667393417789825735904156556882819939007885332058136124031650490837864442687629129015664037894272559787int, 0);
}

/// Square-and-multiply steps 1 to 48 of `2^15778400344354997994418419698270088123916926905054652752758194827714658` modulo `15778400344354997994418419698270088123916926905054652752758194827714659`.
proof fn power_q234_full_0()
    ensures
        pow(2, 321746457077778) % 15778400344354997994418419698270088123916926905054652752758194827714659int == 4233590601501849435713248824194966109719121164240246132882856448201541int,
{
    lemma_pow1(2);
    lemma_small_mod(2, 15778400344354997994418419698270088123916926905054652752758194827714659nat);
    lemma_pow_step(2, 1, 2, 15778400344354997994418419698270088123916926905054652752758194827714659int, 0);
    lemma_pow_step(2, 2, 4, 15778400344354997994418419698270088123916926905054652752758194827714659int, 0);
    lemma_pow_step(2, 4, 16, 15778400344354997994418419698270088123916926905054652752758194827714659int, 1);
    lemma_pow_step(2, 9, 512, 15778400344354997994418419698270088123916926905054652752758194827714659int, 0);
    lemma_pow_step(2, 18, 262144, 15778400344354997994418419698270088123916926905054652752758194827714659int, 0);
    lemma_pow_step(2, 36, 68719476736, 15778400344354997994418419698270088123916926905054652752758194827714659int, 1);
    lemma_pow_step(2, 73, 9444732965739290427392int, 15778400344354997994418419698270088123916926905054652752758194827714659int, 0);
    lemma_pow_step(2, 146, 89202980794122492566142873090593446023921664int, 15778400344354997994418419698270088123916926905054652752758194827714659int, 0);
    lemma_pow_step(2, 292, 9480845537066883545261657543327988518374432289367281420670312054449689int, 15778400344354997994418419698270088123916926905054652752758194827714659int, 1);
    lemma_pow_step(2, 585, 174473162186106139415039574592665829628586756634535403399835863813439int, 15778400344354997994418419698270088123916926905054652752758194827714659int, 0);
    lemma_pow_step(2, 1170, 15360044839701305934915698725804739591136636558387888673517809483212347int, 15778400344354997994418419698270088123916926905054652752758194827714659int, 1);
    lemma_pow_step(2, 2341, 13565390013459950215621707221101128793100233264569268523063505394489347int, 15778400344354997994418419698270088123916926905054652752758194827714659int, 0);
    lemma_pow_step(2, 4682, 14709242984054003949812080162409512922851467357861198708859202616747940int, 15778400344354997994418419698270088123916926905054652752758194827714659int, 0);
    lemma_pow_step(2, 9364, 12517292976847876760312458250231176694093261789902766186349820330474861int, 15778400344354997994418419698270088123916926905054652752758194827714659int, 0);
    lemma_pow_step(2, 18728, 14947361836473949366143469238408769593575929474246830466627512554606538int, 15778400344354997994418419698270088123916926905054652752758194827714659int, 0);
    lemma_pow_step(2, 37456, 12713441228380293273708482600960090279261703948798565791992742179040026int, 15778400344354997994418419698270088123916926905054652752758194827714659int, 0);
    lemma_pow_step(2, 74912, 8235168108893365938529242211002064166708180330001633815627304892258297int, 15778400344354997994418419698270088123916926905054652752758194827714659int, 0);
    lemma_pow_step(2, 149824, 9128284962179998215194521922091450019430719229939429812630657549440599int, 15778400344354997994418419698270088123916926905054652752758194827714659int, 1);
    lemma_pow_step(2, 299649, 9700763523479109361027283526391920594798915753059369155771177590772219int, 15778400344354997994418419698270088123916926905054652752758194827714659int, 1);
    lemma_pow_step(2, 599299, 6617984205918664035975122561361895696890965267627907182425309171933302int, 15778400344354997994418419698270088123916926905054652752758194827714659int, 0);
    lemma_pow_step(2, 1198598, 9534800093680992857790484525141213747584424840536100027671924891562341int, 15778400344354997994418419698270088123916926905054652752758194827714659int, 1);
    lemma_pow_step(2, 2397197, 1393225052796364972143094531549327611081027003698980176408164323419209int, 15778400344354997994418419698270088123916926905054652752758194827714659int, 1);
    lemma_pow_step(2, 4794395, 13758471003591335227868632398521267458183706168846367996887667123853338int, 15778400344354997994418419698270088123916926905054652752758194827714659int, 1);
    lemma_pow_step(2, 9588791, 6496205958044596424026922057759173436021037616093970403438822228565710int, 15778400344354997994418419698270088123916926905054652752758194827714659int, 1);
    lemma_pow_step(2, 19177583, 649269937386593364326231061630012437684230179395177068499025344017731int, 15778400344354997994418419698270088123916926905054652752758194827714659int, 0);
    lemma_pow_step(2, 38355166, 13144529665039124468341432982192992060719446910085989318553313477560849int, 15778400344354997994418419698270088123916926905054652752758194827714659int, 1);
    lemma_pow_step(2, 76710333, 7810145503415633577184454651838234748159294335683144503079968731976386int, 15778400344354997994418419698270088123916926905054652752758194827714659int, 0);
    lemma_pow_step(2, 153420666, 7707893395091116074902410441297797936834555606981662887374870847402487int, 15778400344354997994418419698270088123916926905054652752758194827714659int, 0);
    lemma_pow_step(2, 306841332, 11152271020402097058423311522440130625314670207021634800978464582849697int, 15778400344354997994418419698270088123916926905054652752758194827714659int, 1);
    lemma_pow_step(2, 613682665, 9050426897099822894580050600305451737283604954406722253918869496469172int, 15778400344354997994418419698270088123916926905054652752758194827714659int, 0);
    lemma_pow_step(2, 1227365330, 1523867163414524441393513780315714271451900266232699463813428969479557int, 15778400344354997994418419698270088123916926905054652752758194827714659int, 0);
    lemma_pow_step(2, 2454730660, 754973784850406959532410370629085488546780480326137212716964179469009int, 15778400344354997994418419698270088123916926905054652752758194827714659int, 0);
    lemma_pow_step(2, 4909461320, 881146426126163229486272327478187834344014128399016051152250910384479int, 15778400344354997994418419698270088123916926905054652752758194827714659int, 0);
    lemma_pow_step(2, 9818922640, 4445049610016657879584071065628291436616740251698108226758710512296923int, 15778400344354997994418419698270088123916926905054652752758194827714659int, 0);
    lemma_pow_step(2, 19637845280, 1909613256539100547379467606089968319940318874031385500751157136595350int, 15778400344354997994418419698270088123916926905054652752758194827714659int, 1);
    lemma_pow_step(2, 39275690561, 8344339952285677080002565500466329489977454959493194291219631278343748int, 15778400344354997994418419698270088123916926905054652752758194827714659int, 0);
    lemma_pow_step(2, 78551381122, 8218339267878301653525421087391025801537728877512209636810533657717433int, 15778400344354997994418419698270088123916926905054652752758194827714659int, 1);
    lemma_pow_step(2, 157102762245, 10398726832820848584126577199362559838942234903578856319120706017717228int, 15778400344354997994418419698270088123916926905054652752758194827714659int, 0);
    lemma_pow_step(2, 314205524490, 11967992980674488343006102830402826015687702445737015572127148814143206int, 15778400344354997994418419698270088123916926905054652752758194827714659int, 0);
    lemma_pow_step(2, 628411048980, 1922876633406519021418034915699982236042475603593099632836538313238237int, 15778400344354997994418419698270088123916926905054652752758194827714659int, 0);
    lemma_pow_step(2, 1256822097960, 12797826050479479347671414542184619326748124490710802709218241507436748int, 15778400344354997994418419698270088123916926905054652752758194827714659int, 0);
    lemma_pow_step(2, 2513644195920, 2605238531340956638632661982594032872822516641621293884271240798941309int, 15778400344354997994418419698270088123916926905054652752758194827714659int, 0);
    lemma_pow_step(2, 5027288391840, 5096267460579216184523381910513419767676123029429356928494968176437905int, 15778400344354997994418419698270088123916926905054652752758194827714659int, 0);
    lemma_pow_step(2, 10054576783680, 3710581985761296660360949989954555012013544842199195231205679890572041int, 15778400344354997994418419698270088123916926905054652752758194827714659int, 1);
    lemma_pow_step(2, 20109153567361, 7194660235100833844083003816306597549742125092687803407787367515401648int, 15778400344354997994418419698270088123916926905054652752758194827714659int, 0);
    lemma_pow_step(2, 40218307134722, 7503756067855277720909545477893483675801732810230266653949487773159333int, 15778400344354997994418419698270088123916926905054652752758194827714659int, 0);
    lemma_pow_step(2, 80436614269444, 12941792479439365682893458171236259972150158101505954413114284837815311int, 15778400344354997994418419698270088123916926905054652752758194827714659int, 1);
    lemma_pow_step(2, 160873228538889, 4137336114784014294712772148639571677917001618311055548414891714183334int, 15778400344354997994418419698270088123916926905054652752758194827714659int, 0);
}

/// Square-and-multiply steps 49 to 96 of `2^15778400344354997994418419698270088123916926905054652752758194827714658` modulo `15778400344354997994418419698270088123916926905054652752758194827714659`.
proof fn power_q234_full_1()
    requires
        pow(2, 321746457077778) % 15778400344354997994418419698270088123916926905054652752758194827714659int == 4233590601501849435713248824194966109719121164240246132882856448201541int,
    ensures
        pow(2, 90563576512703789236293504040nat) % 15778400344354997994418419698270088123916926905054652752758194827714659int == 12349192390282644677479316378185591917338334049830692779009743861781487int,
{
    lemma_pow_step(2, 321746457077778, 4233590601501849435713248824194966109719121164240246132882856448201541int, 15778400344354997994418419698270088123916926905054652752758194827714659int, 1);
    lemma_pow_step(2, 643492914155557, 3400562230255114725217320675913189527950774789890517890844650820553651int, 15778400344354997994418419698270088123916926905054652752758194827714659int, 0);
    lemma_pow_step(2, 1286985828311114, 8552745978578035430277251235123735721123342592284088868568128534789606int, 15778400344354997994418419698270088123916926905054652752758194827714659int, 0);
    lemma_pow_step(2, 2573971656622228, 10179677374545533205245797030055351411202660389764196957372529390018180int, 15778400344354997994418419698270088123916926905054652752758194827714659int, 0);
    lemma_pow_step(2, 5147943313244456, 6420381159821289399463565139152015077135943572087787132614219477168857int, 15778400344354997994418419698270088123916926905054652752758194827714659int, 0);
    lemma_pow_step(2, 10295886626488912, 1465265651412493166466511496022604840950127063734923258213067306849060int, 15778400344354997994418419698270088123916926905054652752758194827714659int, 1);
    lemma_pow_step(2, 20591773252977825, 3280369240212707535559233893997635086232581085503146197575323532480496int, 15778400344354997994418419698270088123916926905054652752758194827714659int, 0);
    lemma_pow_step(2, 41183546505955650, 3618872195153308447113951929024005420548918799749073767898913887612964int, 15778400344354997994418419698270088123916926905054652752758194827714659int, 1);
    lemma_pow_step(2, 82367093011911301, 2112385805698696729943594128133948945740626438315646545033803112213468int, 15778400344354997994418419698270088123916926905054652752758194827714659int, 0);
    lemma_pow_step(2, 164734186023822602, 12883421814930472143456812696025546872620603427878002608864650349932351int, 15778400344354997994418419698270088123916926905054652752758194827714659int, 0);
    lemma_pow_step(2, 329468372047645204, 11976973615395073678650277539691541074720592936403452992233744626908722int, 15778400344354997994418419698270088123916926905054652752758194827714659int, 0);
    lemma_pow_step(2, 658936744095290408, 2812000359493141228670039694368856653547858490827360250058161686320917int, 15778400344354997994418419698270088123916926905054652752758194827714659int, 1);
    lemma_pow_step(2, 1317873488190580817, 14791121445228806648650044452921636082519373343806717993703471774109280int, 15778400344354997994418419698270088123916926905054652752758194827714659int, 1);
    lemma_pow_step(2, 2635746976381161635, 13936559190921602431972341042868801887033527270766389519509914236492372int, 15778400344354997994418419698270088123916926905054652752758194827714659int, 0);
    lemma_pow_step(2, 5271493952762323270, 4012740392083177977761148184623626019860289536132179041222326571668391int, 15778400344354997994418419698270088123916926905054652752758194827714659int, 1);
    lemma_pow_step(2, 10542987905524646541nat, 11288212324189689483874587075870589186213425127564455556179542962274089int, 15778400344354997994418419698270088123916926905054652752758194827714659int, 1);
    lemma_pow_step(2, 21085975811049293083nat, 14766094905573806627566472179460786230250703135425472502331508358008908int, 15778400344354997994418419698270088123916926905054652752758194827714659int, 0);
    lemma_pow_step(2, 42171951622098586166nat, 11942857331506867451556309148998643284130523627082022877443565812532997int, 15778400344354997994418419698270088123916926905054652752758194827714659int, 0);
    lemma_pow_step(2, 84343903244197172332nat, 9900278162394973520256710536630613518431122332871347976640945350831316int, 15778400344354997994418419698270088123916926905054652752758194827714659int, 1);
    lemma_pow_step(2, 168687806488394344665nat, 12288330094753581911710809460838318871590679538015297088496857145225175int, 15778400344354997994418419698270088123916926905054652752758194827714659int, 1);
    lemma_pow_step(2, 337375612976788689331nat, 575078532440707850459924351883288238994275302405813209080191917213871int, 15778400344354997994418419698270088123916926905054652752758194827714659int, 0);
    lemma_pow_step(2, 674751225953577378662nat, 1597748893803187370157213654125120956324423098795221050542596413423415int, 15778400344354997994418419698270088123916926905054652752758194827714659int, 1);
    lemma_pow_step(2, 1349502451907154757325nat, 11724526033509395976930563958030694461017822887765428338441799664084707int, 15778400344354997994418419698270088123916926905054652752758194827714659int, 0);
    lemma_pow_step(2, 2699004903814309514650nat, 3433705970369095062527503081803644064705561424674213679250203542627013int, 15778400344354997994418419698270088123916926905054652752758194827714659int, 1);
    lemma_pow_step(2, 5398009807628619029301nat, 4523842030981861864493095564023281942551921820778105432631376472911063int, 15778400344354997994418419698270088123916926905054652752758194827714659int, 0);
    lemma_pow_step(2, 10796019615257238058602nat, 2921798356225565816297304125076321025981368440776282784027741957471400int, 15778400344354997994418419698270088123916926905054652752758194827714659int, 0);
    lemma_pow_step(2, 21592039230514476117204nat, 12176804104475987413928857366145657937258989859572536231640348752539965int, 15778400344354997994418419698270088123916926905054652752758194827714659int, 0);
    lemma_pow_step(2, 43184078461028952234408nat, 9376033834538414232714112323497027585422869321245314248393040222253477int, 15778400344354997994418419698270088123916926905054652752758194827714659int, 0);
    lemma_pow_step(2, 86368156922057904468816nat, 14208800012147392479965829689389965114662498419879736776865518563686640int, 15778400344354997994418419698270088123916926905054652752758194827714659int, 0);
    lemma_pow_step(2, 172736313844115808937632nat, 3396102100652849690543774761737088581472753677082022881532713489914943int, 15778400344354997994418419698270088123916926905054652752758194827714659int, 1);
    lemma_pow_step(2, 345472627688231617875265nat, 4294385781243949496639252846999645832260824822714531353691097581543291int, 15778400344354997994418419698270088123916926905054652752758194827714659int, 0);
    lemma_pow_step(2, 690945255376463235750530nat, 4350731722640737339580702631728538797635490380370852545265263844475849int, 15778400344354997994418419698270088123916926905054652752758194827714659int, 0);
    lemma_pow_step(2, 1381890510752926471501060nat, 15507547037983553846354591277073333536417964261175538952475585340367102int, 15778400344354997994418419698270088123916926905054652752758194827714659int, 1);
    lemma_pow_step(2, 2763781021505852943002121nat, 1248848640647572683957363755861634152522215378376931335513163269101905int, 15778400344354997994418419698270088123916926905054652752758194827714659int, 0);
    lemma_pow_step(2, 5527562043011705886004242nat, 993530966098017688669230764069502081680607421665264383896304853736092int, 15778400344354997994418419698270088123916926905054652752758194827714659int, 0);
    lemma_pow_step(2, 11055124086023411772008484nat, 8452713988761722370476158958115140068538712284553292814777704090861529int, 15778400344354997994418419698270088123916926905054652752758194827714659int, 0);
    lemma_pow_step(2, 22110248172046823544016968nat, 11780437682509185020922166089216682687064493507385014643057549328060458int, 15778400344354997994418419698270088123916926905054652752758194827714659int, 1);
    lemma_pow_step(2, 44220496344093647088033937nat, 6132986187928157262372003161952869645171695631350378689642040803785499int, 15778400344354997994418419698270088123916926905054652752758194827714659int, 1);
    lemma_pow_step(2, 88440992688187294176067875nat, 13165047817391016725608712063087914483330455292858308803672716156988575int, 15778400344354997994418419698270088123916926905054652752758194827714659int, 0);
    lemma_pow_step(2, 176881985376374588352135750nat, 5119046378678080211862317712539039105712481564598958558798779668628869int, 15778400344354997994418419698270088123916926905054652752758194827714659int, 0);
    lemma_pow_step(2, 353763970752749176704271500nat, 7384110657471405089313341107674076217107479503256340543090426067715548int, 15778400344354997994418419698270088123916926905054652752758194827714659int, 0);
    lemma_pow_step(2, 707527941505498353408543000nat, 12532289648792593755456842118442499458605905108914326016982520740228068int, 15778400344354997994418419698270088123916926905054652752758194827714659int, 0);
    lemma_pow_step(2, 1415055883010996706817086000nat, 14518282119176099790159491379544659083743811604563676507430341907893849int, 15778400344354997994418419698270088123916926905054652752758194827714659int, 1);
    lemma_pow_step(2, 2830111766021993413634172001nat, 2715592002837731441386717463402971599181339424133411544637266584158811int, 15778400344354997994418419698270088123916926905054652752758194827714659int, 0);
    lemma_pow_step(2, 5660223532043986827268344002nat, 8884577096663859694842939440774419475259705121890549324286873652706137int, 15778400344354997994418419698270088123916926905054652752758194827714659int, 1);
    lemma_pow_step(2, 11320447064087973654536688005nat, 6964505960708951652312617850948314442146138972904774118994485124538702int, 15778400344354997994418419698270088123916926905054652752758194827714659int, 0);
    lemma_pow_step(2, 22640894128175947309073376010nat, 4946606016900395650091854411267410398679582692286372912485720550887545int, 15778400344354997994418419698270088123916926905054652752758194827714659int, 0);
    lemma_pow_step(2, 45281788256351894618146752020nat, 11313339993684677736463700217815066376815518473654552837385170871012825int, 15778400344354997994418419698270088123916926905054652752758194827714659int, 0);
}

/// Square-and-multiply steps 97 to 144 of `2^15778400344354997994418419698270088123916926905054652752758194827714658` modulo `15778400344354997994418419698270088123916926905054652752758194827714659`.
proof fn power_q234_full_2()
    requires
        pow(2, 90563576512703789236293504040nat) % 15778400344354997994418419698270088123916926905054652752758194827714659int == 12349192390282644677479316378185591917338334049830692779009743861781487int,
    ensures
        pow(2, 25491380589747011800606796422356310083787637nat) % 15778400344354997994418419698270088123916926905054652752758194827714659int == 3982744814393126354067287837795727956827932790009510743278635681808776int,
{
    lemma_pow_step(2, 90563576512703789236293504040nat, 12349192390282644677479316378185591917338334049830692779009743861781487int, 15778400344354997994418419698270088123916926905054652752758194827714659int, 1);
    lemma_pow_step(2, 181127153025407578472587008081nat, 12372145573046277947070798438575901972917192712398999431205501142502330int, 15778400344354997994418419698270088123916926905054652752758194827714659int, 1);
    lemma_pow_step(2, 362254306050815156945174016163nat, 13087553714531176546027867234058385587033603923998103659752700963690276int, 15778400344354997994418419698270088123916926905054652752758194827714659int, 0);
    lemma_pow_step(2, 724508612101630313890348032326nat, 3993678121302141750062390824487439309499558376807307272183830111800960int, 15778400344354997994418419698270088123916926905054652752758194827714659int, 1);
    lemma_pow_step(2, 1449017224203260627780696064653nat, 4908319583981350788651561601057221896815559352756079508009869543131202int, 15778400344354997994418419698270088123916926905054652752758194827714659int, 0);
    lemma_pow_step(2, 2898034448406521255561392129306nat, 5867787990246371197644578831229784924042930575581368710713854220656111int, 15778400344354997994418419698270088123916926905054652752758194827714659int, 1);
    lemma_pow_step(2, 5796068896813042511122784258613nat, 7085439770089210450133293893184556726288906017971219219557599133179683int, 15778400344354997994418419698270088123916926905054652752758194827714659int, 0);
    lemma_pow_step(2, 11592137793626085022245568517226nat, 13139348392229470237192875196876247624527808838714677937461206436753846int, 15778400344354997994418419698270088123916926905054652752758194827714659int, 0);
    lemma_pow_step(2, 23184275587252170044491137034452nat, 6490986854764324232622042184285046441846115306544565493839587238036448int, 15778400344354997994418419698270088123916926905054652752758194827714659int, 1);
    lemma_pow_step(2, 46368551174504340088982274068905nat, 2202262067173618047938766256777882084272761895703567408160992189032179int, 15778400344354997994418419698270088123916926905054652752758194827714659int, 1);
    lemma_pow_step(2, 92737102349008680177964548137811nat, 15678293699521105995478885453089898671922321269663052666448920570202883int, 15778400344354997994418419698270088123916926905054652752758194827714659int, 0);
    lemma_pow_step(2, 185474204698017360355929096275622nat, 3617726410476309811935367494808552132855383347197500678585076296951466int, 15778400344354997994418419698270088123916926905054652752758194827714659int, 1);
    lemma_pow_step(2, 370948409396034720711858192551245nat, 4906323431772124294360203529456862911412697259965348441177181677487982int, 15778400344354997994418419698270088123916926905054652752758194827714659int, 0);
    lemma_pow_step(2, 741896818792069441423716385102490nat, 1365368704842522652760848215467960877620598559575248816703162839880089int, 15778400344354997994418419698270088123916926905054652752758194827714659int, 1);
    lemma_pow_step(2, 1483793637584138882847432770204981nat, 10958154962636423265121600881705374646039090224906637810635845655630742int, 15778400344354997994418419698270088123916926905054652752758194827714659int, 0);
    lemma_pow_step(2, 2967587275168277765694865540409962nat, 2851066980776114089300215546828243821623719302455495670983532325976073int, 15778400344354997994418419698270088123916926905054652752758194827714659int, 0);
    lemma_pow_step(2, 5935174550336555531389731080819924nat, 12777655031259666550456969763229339202087696767464887092416850701064757int, 15778400344354997994418419698270088123916926905054652752758194827714659int, 1);
    lemma_pow_step(2, 11870349100673111062779462161639849nat, 4837055610921175993342312570367318259169880319146554320071919519238639int, 15778400344354997994418419698270088123916926905054652752758194827714659int, 1);
    lemma_pow_step(2, 23740698201346222125558924323279699nat, 8556742140895420005295067745257779750774940322212514202017386718950714int, 15778400344354997994418419698270088123916926905054652752758194827714659int, 0);
    lemma_pow_step(2, 47481396402692444251117848646559398nat, 12526424426299320615780253129040592566055268627997064623775874425094149int, 15778400344354997994418419698270088123916926905054652752758194827714659int, 1);
    lemma_pow_step(2, 94962792805384888502235697293118797nat, 6233091942728821910322326539333837103093634822805800082517419461935212int, 15778400344354997994418419698270088123916926905054652752758194827714659int, 1);
    lemma_pow_step(2, 189925585610769777004471394586237595nat, 5917959430435514383985986779098208599024117828413820290394537627447991int, 15778400344354997994418419698270088123916926905054652752758194827714659int, 0);
    lemma_pow_step(2, 379851171221539554008942789172475190nat, 13627695673130942055346949054596056671593041941215494452133165723747041int, 15778400344354997994418419698270088123916926905054652752758194827714659int, 0);
    lemma_pow_step(2, 759702342443079108017885578344950380nat, 5433390431037169866693340805183583188941235100855212441366857234322259int, 15778400344354997994418419698270088123916926905054652752758194827714659int, 0);
    lemma_pow_step(2, 1519404684886158216035771156689900760nat, 4591640104527442110246143756031419058748595885203121391278654184950536int, 15778400344354997994418419698270088123916926905054652752758194827714659int, 1);
    lemma_pow_step(2, 3038809369772316432071542313379801521nat, 11649812457165608286950392917833006471883405742278502241476829631300243int, 15778400344354997994418419698270088123916926905054652752758194827714659int, 1);
    lemma_pow_step(2, 6077618739544632864143084626759603043nat, 13249710223081447316787922742077182909435078357708382156466653889869034int, 15778400344354997994418419698270088123916926905054652752758194827714659int, 1);
    lemma_pow_step(2, 12155237479089265728286169253519206087nat, 10861408634085233327262773048627034706369905646804737999953948673535684int, 15778400344354997994418419698270088123916926905054652752758194827714659int, 0);
    lemma_pow_step(2, 24310474958178531456572338507038412174nat, 15102423165566615517653329877229482130747554340561351721066203557623220int, 15778400344354997994418419698270088123916926905054652752758194827714659int, 0);
    lemma_pow_step(2, 48620949916357062913144677014076824348nat, 7470841876356211247851872771421341256851265003751300542216641699075492int, 15778400344354997994418419698270088123916926905054652752758194827714659int, 0);
    lemma_pow_step(2, 97241899832714125826289354028153648696nat, 5328823147961554037814836596759622598697254156138877791031814262670591int, 15778400344354997994418419698270088123916926905054652752758194827714659int, 0);
    lemma_pow_step(2, 194483799665428251652578708056307297392nat, 5062928746611935841172440164097651996665715844294271433044512191331298int, 15778400344354997994418419698270088123916926905054652752758194827714659int, 0);
    lemma_pow_step(2, 388967599330856503305157416112614594784nat, 11663357321504445824115147477050120812083782941591432509025905878407545int, 15778400344354997994418419698270088123916926905054652752758194827714659int, 0);
    lemma_pow_step(2, 777935198661713006610314832225229189568nat, 14679006178694935913394910110174143325020274072732767188402536086034114int, 15778400344354997994418419698270088123916926905054652752758194827714659int, 1);
    lemma_pow_step(2, 1555870397323426013220629664450458379137nat, 9950011752687712120344931408372669346290260631181191306745272526373015int, 15778400344354997994418419698270088123916926905054652752758194827714659int, 0);
    lemma_pow_step(2, 3111740794646852026441259328900916758274nat, 9971347865355077066735283413402382699959622476255116050270349103462739int, 15778400344354997994418419698270088123916926905054652752758194827714659int, 1);
    lemma_pow_step(2, 6223481589293704052882518657801833516549nat, 12784752358970932639277549033677158504709042487767689408475840152025389int, 15778400344354997994418419698270088123916926905054652752758194827714659int, 1);
    lemma_pow_step(2, 12446963178587408105765037315603667033099nat, 3125815828177377564758288707197596812945869448909966460804373194802347int, 15778400344354997994418419698270088123916926905054652752758194827714659int, 0);
    lemma_pow_step(2, 24893926357174816211530074631207334066198nat, 2430746471658870046753947616641436095972155279090842237238568731935363int, 15778400344354997994418419698270088123916926905054652752758194827714659int, 1);
    lemma_pow_step(2, 49787852714349632423060149262414668132397nat, 14617980511158398139429415201938771530540826388339642071736469326849626int, 15778400344354997994418419698270088123916926905054652752758194827714659int, 1);
    lemma_pow_step(2, 99575705428699264846120298524829336264795nat, 4712405469996190131189430908147745544495173894392942829600866106313752int, 15778400344354997994418419698270088123916926905054652752758194827714659int, 0);
    lemma_pow_step(2, 199151410857398529692240597049658672529590nat, 324239791035979635159026671899121927483534995049128095566426660656487int, 15778400344354997994418419698270088123916926905054652752758194827714659int, 1);
    lemma_pow_step(2, 398302821714797059384481194099317345059181nat, 2967932563311638656844328418089988311358497869922776065409870109518655int, 15778400344354997994418419698270088123916926905054652752758194827714659int, 1);
    lemma_pow_step(2, 796605643429594118768962388198634690118363nat, 12297673225064839321067974041896697713330946514878791191322593306898350int, 15778400344354997994418419698270088123916926905054652752758194827714659int, 1);
    lemma_pow_step(2, 1593211286859188237537924776397269380236727nat, 14312009534959335484423779390982568198287166992601738068949001984462946int, 15778400344354997994418419698270088123916926905054652752758194827714659int, 0);
    lemma_pow_step(2, 3186422573718376475075849552794538760473454nat, 9139249805269724292980572610939676754503039329128676183029305577722693int, 15778400344354997994418419698270088123916926905054652752758194827714659int, 1);
    lemma_pow_step(2, 6372845147436752950151699105589077520946909nat, 7313908009144030714219628888078292576346047511153053801747133442126653int, 15778400344354997994418419698270088123916926905054652752758194827714659int, 0);
    lemma_pow_step(2, 12745690294873505900303398211178155041893818nat, 1455783882122510910682206755360894035369221633980280925033526785719950int, 15778400344354997994418419698270088123916926905054652752758194827714659int, 1);
}

/// Square-and-multiply steps 145 to 192 of `2^15778400344354997994418419698270088123916926905054652752758194827714658` modulo `15778400344354997994418419698270088123916926905054652752758194827714659`.
proof fn power_q234_full_3()
    requires
        pow(2, 25491380589747011800606796422356310083787637nat) % 15778400344354997994418419698270088123916926905054652752758194827714659int == 3982744814393126354067287837795727956827932790009510743278635681808776int,
    ensures
        pow(2, 7175185757821508557034767226591651762608729270620939474955nat) % 15778400344354997994418419698270088123916926905054652752758194827714659int == 15357383807238285675673979912814301903913164522693990335216147815562393int,
{
    lemma_pow_step(2, 25491380589747011800606796422356310083787637nat, 3982744814393126354067287837795727956827932790009510743278635681808776int, 15778400344354997994418419698270088123916926905054652752758194827714659int, 1);
    lemma_pow_step(2, 50982761179494023601213592844712620167575275nat, 10886335608331171596865785210804933179627131287477431770609331832652219int, 15778400344354997994418419698270088123916926905054652752758194827714659int, 1);
    lemma_pow_step(2, 101965522358988047202427185689425240335150551nat, 879079199926382050039495047988653768934265857862559365920225745186313int, 15778400344354997994418419698270088123916926905054652752758194827714659int, 1);
    lemma_pow_step(2, 203931044717976094404854371378850480670301103nat, 12462599562227433037304075811942122002131655630355598696709933246739054int, 15778400344354997994418419698270088123916926905054652752758194827714659int, 0);
    lemma_pow_step(2, 407862089435952188809708742757700961340602206nat, 374062168471781982120944305036449132276188458524403017806084705544215int, 15778400344354997994418419698270088123916926905054652752758194827714659int, 1);
    lemma_pow_step(2, 815724178871904377619417485515401922681204413nat, 5617158259502191190639994030769311376189693837184240244736983196946411int, 15778400344354997994418419698270088123916926905054652752758194827714659int, 0);
    lemma_pow_step(2, 1631448357743808755238834971030803845362408826nat, 12714699531791304010643009325109563070488674440921560054408327495542590int, 15778400344354997994418419698270088123916926905054652752758194827714659int, 1);
    lemma_pow_step(2, 3262896715487617510477669942061607690724817653nat, 4821444547942899081995522255392712914215373681547346302407798453196238int, 15778400344354997994418419698270088123916926905054652752758194827714659int, 0);
    lemma_pow_step(2, 6525793430975235020955339884123215381449635306nat, 11465194676699451997106930327577110027600223591773887701864514386978582int, 15778400344354997994418419698270088123916926905054652752758194827714659int, 1);
    lemma_pow_step(2, 13051586861950470041910679768246430762899270613nat, 3252751208123528430716288586577160509199120067266478734167264485453091int, 15778400344354997994418419698270088123916926905054652752758194827714659int, 0);
    lemma_pow_step(2, 26103173723900940083821359536492861525798541226nat, 9889879980814952831964133993141676386961098379957306455650035061190143int, 15778400344354997994418419698270088123916926905054652752758194827714659int, 1);
    lemma_pow_step(2, 52206347447801880167642719072985723051597082453nat, 8389807069580527785163802158864805883123258746043712453351063239886588int, 15778400344354997994418419698270088123916926905054652752758194827714659int, 1);
    lemma_pow_step(2, 104412694895603760335285438145971446103194164907nat, 1691286428030396912907875289983869684870996421378734981392647022086651int, 15778400344354997994418419698270088123916926905054652752758194827714659int, 0);
    lemma_pow_step(2, 208825389791207520670570876291942892206388329814nat, 8986757220241080079656437152187121760940339115029746184258232883960904int, 15778400344354997994418419698270088123916926905054652752758194827714659int, 0);
    lemma_pow_step(2, 417650779582415041341141752583885784412776659628nat, 14217913315369500780987322582990840156097110261992449006793868996633179int, 15778400344354997994418419698270088123916926905054652752758194827714659int, 0);
    lemma_pow_step(2, 835301559164830082682283505167771568825553319256nat, 8145214161607127328843177295181425682758604497422097263526343462704554int, 15778400344354997994418419698270088123916926905054652752758194827714659int, 0);
    lemma_pow_step(2, 1670603118329660165364567010335543137651106638512nat, 15380605782353747466583263547295751372278741221244985631394072851627577int, 15778400344354997994418419698270088123916926905054652752758194827714659int, 1);
    lemma_pow_step(2, 3341206236659320330729134020671086275302213277025nat, 14520616917222271870513450987981351545566991935678140126010510619397186int, 15778400344354997994418419698270088123916926905054652752758194827714659int, 1);
    lemma_pow_step(2, 6682412473318640661458268041342172550604426554051nat, 14909886400292579894079558797614911809518421722471585202313521252222796int, 15778400344354997994418419698270088123916926905054652752758194827714659int, 0);
    lemma_pow_step(2, 13364824946637281322916536082684345101208853108102nat, 7362733706729314963071089715125059803615808755338579761665903449403920int, 15778400344354997994418419698270088123916926905054652752758194827714659int, 0);
    lemma_pow_step(2, 26729649893274562645833072165368690202417706216204nat, 3883284745259708877553173994553999546743677606551022182695399626872741int, 15778400344354997994418419698270088123916926905054652752758194827714659int, 1);
    lemma_pow_step(2, 53459299786549125291666144330737380404835412432409nat, 996531170481473308007876461893234105474607019907272141542515099428307int, 15778400344354997994418419698270088123916926905054652752758194827714659int, 0);
    lemma_pow_step(2, 106918599573098250583332288661474760809670824864818nat, 444277188079824360733580533970933742996458192874327494179723887585281int, 15778400344354997994418419698270088123916926905054652752758194827714659int, 1);
    lemma_pow_step(2, 213837199146196501166664577322949521619341649729637nat, 5323981658010495904360598953483869276541175219827107540970319292151816int, 15778400344354997994418419698270088123916926905054652752758194827714659int, 0);
    lemma_pow_step(2, 427674398292393002333329154645899043238683299459274nat, 10502525219101640399349497596973345840463662443013187343422841519991332int, 15778400344354997994418419698270088123916926905054652752758194827714659int, 1);
    lemma_pow_step(2, 855348796584786004666658309291798086477366598918549nat, 12266435301615404001865514895514705724751731437667305463311023916697838int, 15778400344354997994418419698270088123916926905054652752758194827714659int, 1);
    lemma_pow_step(2, 1710697593169572009333316618583596172954733197837099nat, 3294781848298086911144922757175269680330714630708269912711254268142738int, 15778400344354997994418419698270088123916926905054652752758194827714659int, 1);
    lemma_pow_step(2, 3421395186339144018666633237167192345909466395674199nat, 5421611125542698125429533815269845040390318525263141812809411926443934int, 15778400344354997994418419698270088123916926905054652752758194827714659int, 1);
    lemma_pow_step(2, 6842790372678288037333266474334384691818932791348399nat, 14317151218034024954928629744647792761778345011681972941424045105404209int, 15778400344354997994418419698270088123916926905054652752758194827714659int, 1);
    lemma_pow_step(2, 13685580745356576074666532948668769383637865582696799nat, 11810948773264833691333090277416697716664762813295239878078505487578408int, 15778400344354997994418419698270088123916926905054652752758194827714659int, 0);
    lemma_pow_step(2, 27371161490713152149333065897337538767275731165393598nat, 2553011825488591211491408283698027374879142805383956430628514189509652int, 15778400344354997994418419698270088123916926905054652752758194827714659int, 0);
    lemma_pow_step(2, 54742322981426304298666131794675077534551462330787196nat, 8014864127037503086714916596444029282894416231702190858548423578285130int, 15778400344354997994418419698270088123916926905054652752758194827714659int, 1);
    lemma_pow_step(2, 109484645962852608597332263589350155069102924661574393nat, 7635678866706836205488043708563008496324777732993669611720900704948192int, 15778400344354997994418419698270088123916926905054652752758194827714659int, 1);
    lemma_pow_step(2, 218969291925705217194664527178700310138205849323148787nat, 14494279373416742641270614202599690621581178897789034182893070139790942int, 15778400344354997994418419698270088123916926905054652752758194827714659int, 1);
    lemma_pow_step(2, 437938583851410434389329054357400620276411698646297575nat, 8382378157056973962910693768778202926093896052698026049009016137134686int, 15778400344354997994418419698270088123916926905054652752758194827714659int, 0);
    lemma_pow_step(2, 875877167702820868778658108714801240552823397292595150nat, 8003837703846462002386617843637801380945777162467351263071269154177302int, 15778400344354997994418419698270088123916926905054652752758194827714659int, 1);
    lemma_pow_step(2, 1751754335405641737557316217429602481105646794585190301nat, 7048219148415721590947653655114119638388821850285376727528579422831562int, 15778400344354997994418419698270088123916926905054652752758194827714659int, 1);
    lemma_pow_step(2, 3503508670811283475114632434859204962211293589170380603nat, 1328281945592973002036916668224954004562203289592533190546836871781094int, 15778400344354997994418419698270088123916926905054652752758194827714659int, 0);
    lemma_pow_step(2, 7007017341622566950229264869718409924422587178340761206nat, 6788587146912646636735603408487289427183794896738601282734535385861273int, 15778400344354997994418419698270088123916926905054652752758194827714659int, 0);
    lemma_pow_step(2, 14014034683245133900458529739436819848845174356681522412nat, 4740368483939629285161750752843886051530338309952799283718306732099329int, 15778400344354997994418419698270088123916926905054652752758194827714659int, 0);
    lemma_pow_step(2, 28028069366490267800917059478873639697690348713363044824nat, 8598616625381665671402841843318377879154100000232859081795839334834902int, 15778400344354997994418419698270088123916926905054652752758194827714659int, 0);
    lemma_pow_step(2, 56056138732980535601834118957747279395380697426726089648nat, 2783902763717716996864626455543555837088106615721596308506417302627185int, 15778400344354997994418419698270088123916926905054652752758194827714659int, 0);
    lemma_pow_step(2, 112112277465961071203668237915494558790761394853452179296nat, 1896601182918398682309776879248782730195290152423099405945670654444423int, 15778400344354997994418419698270088123916926905054652752758194827714659int, 0);
    lemma_pow_step(2, 224224554931922142407336475830989117581522789706904358592nat, 13188575070468648726996079027765027403379351034159435343789878513630951int, 15778400344354997994418419698270088123916926905054652752758194827714659int, 0);
    lemma_pow_step(2, 448449109863844284814672951661978235163045579413808717184nat, 10690723084523335824741583012418898974696449403955154631240869954698373int, 15778400344354997994418419698270088123916926905054652752758194827714659int, 1);
    lemma_pow_step(2, 896898219727688569629345903323956470326091158827617434369nat, 1935745177398944221572609766081283210174613289152479596458015905718419int, 15778400344354997994418419698270088123916926905054652752758194827714659int, 0);
    lemma_pow_step(2, 1793796439455377139258691806647912940652182317655234868738nat, 4913905930129090560333875286074725408933385814904610918005703434090282int, 15778400344354997994418419698270088123916926905054652752758194827714659int, 1);
    lemma_pow_step(2, 3587592878910754278517383613295825881304364635310469737477nat, 595791268767487316580634128652615210354159359058204586640375807557114int, 15778400344354997994418419698270088123916926905054652752758194827714659int, 1);
}

/// Square-and-multiply steps 193 to 233 of `2^15778400344354997994418419698270088123916926905054652752758194827714658` modulo `15778400344354997994418419698270088123916926905054652752758194827714659`.
proof fn power_q234_full_4()
    requires
        pow(2, 7175185757821508557034767226591651762608729270620939474955nat) % 15778400344354997994418419698270088123916926905054652752758194827714659int == 15357383807238285675673979912814301903913164522693990335216147815562393int,
    ensures
        pow(2, 15778400344354997994418419698270088123916926905054652752758194827714658nat) % 15778400344354997994418419698270088123916926905054652752758194827714659int == 1,
{
    lemma_pow_step(2, 7175185757821508557034767226591651762608729270620939474955nat, 15357383807238285675673979912814301903913164522693990335216147815562393int, 15778400344354997994418419698270088123916926905054652752758194827714659int, 1);
    lemma_pow_step(2, 14350371515643017114069534453183303525217458541241878949911nat, 13380260025034205952505911239441080498588961482430911232676631686994726int, 15778400344354997994418419698270088123916926905054652752758194827714659int, 1);
    lemma_pow_step(2, 28700743031286034228139068906366607050434917082483757899823nat, 2333113014147014658093407135983601004072504907487940780588840626049070int, 15778400344354997994418419698270088123916926905054652752758194827714659int, 0);
    lemma_pow_step(2, 57401486062572068456278137812733214100869834164967515799646nat, 13835843854660426740924847843862721613604765022381172911436811641778219int, 15778400344354997994418419698270088123916926905054652752758194827714659int, 1);
    lemma_pow_step(2, 114802972125144136912556275625466428201739668329935031599293nat, 13164213024110037881754805510801724723233788383708943002560092828950505int, 15778400344354997994418419698270088123916926905054652752758194827714659int, 1);
    lemma_pow_step(2, 229605944250288273825112551250932856403479336659870063198587nat, 9270992028518674970860972295308254744177673392980726974668518776558335int, 15778400344354997994418419698270088123916926905054652752758194827714659int, 1);
    lemma_pow_step(2, 459211888500576547650225102501865712806958673319740126397175nat, 12171277563017299366453179256473811726327038064914996912114640524022972int, 15778400344354997994418419698270088123916926905054652752758194827714659int, 0);
    lemma_pow_step(2, 918423777001153095300450205003731425613917346639480252794350nat, 7182727736831065862682612314010566029653567119617943840676735087118556int, 15778400344354997994418419698270088123916926905054652752758194827714659int, 1);
    lemma_pow_step(2, 1836847554002306190600900410007462851227834693278960505588701nat, 8583572896669679755329105581352720720491104951558884232598572227078687int, 15778400344354997994418419698270088123916926905054652752758194827714659int, 0);
    lemma_pow_step(2, 3673695108004612381201800820014925702455669386557921011177402nat, 5861989726248711209441943729036118825910578464064439293295297763776995int, 15778400344354997994418419698270088123916926905054652752758194827714659int, 1);
    lemma_pow_step(2, 7347390216009224762403601640029851404911338773115842022354805nat, 6409017606622578828940663954531499832196657789363348514766526748707848int, 15778400344354997994418419698270088123916926905054652752758194827714659int, 0);
    lemma_pow_step(2, 14694780432018449524807203280059702809822677546231684044709610nat, 7757872463853346127440368576544679177504483359951117387240763400251330int, 15778400344354997994418419698270088123916926905054652752758194827714659int, 1);
    lemma_pow_step(2, 29389560864036899049614406560119405619645355092463368089419221nat, 9526880596350544482266035882599009586248112207368189408660993448629605int, 15778400344354997994418419698270088123916926905054652752758194827714659int, 0);
    lemma_pow_step(2, 58779121728073798099228813120238811239290710184926736178838442nat, 12226375929330682960364927101670899152749203667662128724765176411841161int, 15778400344354997994418419698270088123916926905054652752758194827714659int, 0);
    lemma_pow_step(2, 117558243456147596198457626240477622478581420369853472357676884nat, 12762214017171197541375568798306601039379700291381909329880707810724227int, 15778400344354997994418419698270088123916926905054652752758194827714659int, 1);
    lemma_pow_step(2, 235116486912295192396915252480955244957162840739706944715353769nat, 11153498996128843558519267012426604315110205540876435995392514304872139int, 15778400344354997994418419698270088123916926905054652752758194827714659int, 0);
    lemma_pow_step(2, 470232973824590384793830504961910489914325681479413889430707538nat, 9668500404514053367915585824611849702886446021446498556436353473947111int, 15778400344354997994418419698270088123916926905054652752758194827714659int, 1);
    lemma_pow_step(2, 940465947649180769587661009923820979828651362958827778861415077nat, 14003056874223372276012545225693789123074770559559611767176524726020345int, 15778400344354997994418419698270088123916926905054652752758194827714659int, 1);
    lemma_pow_step(2, 1880931895298361539175322019847641959657302725917655557722830155nat, 14644950970173421430093419511669562883759820812369123341933228560896717int, 15778400344354997994418419698270088123916926905054652752758194827714659int, 1);
    lemma_pow_step(2, 3761863790596723078350644039695283919314605451835311115445660311nat, 10649958610728549004445592581812463257031789831314091034662783621615547int, 15778400344354997994418419698270088123916926905054652752758194827714659int, 1);
    lemma_pow_step(2, 7523727581193446156701288079390567838629210903670622230891320623nat, 2346595862464304433790067581273634239732666716766221308067758256780333int, 15778400344354997994418419698270088123916926905054652752758194827714659int, 0);
    lemma_pow_step(2, 15047455162386892313402576158781135677258421807341244461782641246nat, 10845382991254137011160085607407866913213789753803901248275043824334809int, 15778400344354997994418419698270088123916926905054652752758194827714659int, 1);
    lemma_pow_step(2, 30094910324773784626805152317562271354516843614682488923565282493nat, 515755309322573685584759536775526120685035603007764930579670771919516int, 15778400344354997994418419698270088123916926905054652752758194827714659int, 0);
    lemma_pow_step(2, 60189820649547569253610304635124542709033687229364977847130564986nat, 7201388377604202868471803193598542621328175551128543708255554986117900int, 15778400344354997994418419698270088123916926905054652752758194827714659int, 0);
    lemma_pow_step(2, 120379641299095138507220609270249085418067374458729955694261129972nat, 6178076313537253600709103472889451212664287745881959732351815220101227int, 15778400344354997994418419698270088123916926905054652752758194827714659int, 0);
    lemma_pow_step(2, 240759282598190277014441218540498170836134748917459911388522259944nat, 12620900113504571314307913334715621055495760986991773508684634462192260int, 15778400344354997994418419698270088123916926905054652752758194827714659int, 0);
    lemma_pow_step(2, 481518565196380554028882437080996341672269497834919822777044519888nat, 8527550307153358949444814740521112614044910655026016615262634682457902int, 15778400344354997994418419698270088123916926905054652752758194827714659int, 1);
    lemma_pow_step(2, 963037130392761108057764874161992683344538995669839645554089039777nat, 13932024941734649003501809872520756341037677928046257754280222180308945int, 15778400344354997994418419698270088123916926905054652752758194827714659int, 1);
    lemma_pow_step(2, 1926074260785522216115529748323985366689077991339679291108178079555nat, 10776841538897833514443946423523667072657218476397231161741464745518716int, 15778400344354997994418419698270088123916926905054652752758194827714659int, 0);
    lemma_pow_step(2, 3852148521571044432231059496647970733378155982679358582216356159110nat, 12489134317189726602201556181242292224765069568802252002166123675977618int, 15778400344354997994418419698270088123916926905054652752758194827714659int, 0);
    lemma_pow_step(2, 7704297043142088864462118993295941466756311965358717164432712318220nat, 15099214542039129035950369995083520620826281646983965531466734931725249int, 15778400344354997994418419698270088123916926905054652752758194827714659int, 0);
    lemma_pow_step(2, 15408594086284177728924237986591882933512623930717434328865424636440nat, 10900654660033984120565261988976060169465593973855604874611724872093233int, 15778400344354997994418419698270088123916926905054652752758194827714659int, 0);
    lemma_pow_step(2, 30817188172568355457848475973183765867025247861434868657730849272880nat, 2925969885480825744874436929026269548420667051312454782114525161179048int, 15778400344354997994418419698270088123916926905054652752758194827714659int, 0);
    lemma_pow_step(2, 61634376345136710915696951946367531734050495722869737315461698545760nat, 3955558096203473778786263000231548842956404179650836791070543966430280int, 15778400344354997994418419698270088123916926905054652752758194827714659int, 0);
    lemma_pow_step(2, 123268752690273421831393903892735063468100991445739474630923397091520nat, 15269039919270718180756466007896072892345267061403859419768156176811557int, 15778400344354997994418419698270088123916926905054652752758194827714659int, 1);
    lemma_pow_step(2, 246537505380546843662787807785470126936201982891478949261846794183041nat, 15629975804568295352018841166896523068696201398084709629599708749604425int, 15778400344354997994418419698270088123916926905054652752758194827714659int, 1);
    lemma_pow_step(2, 493075010761093687325575615570940253872403965782957898523693588366083nat, 13632259224947228465416816068336853963315021724476755346741013920265325int, 15778400344354997994418419698270088123916926905054652752758194827714659int, 0);
    lemma_pow_step(2, 986150021522187374651151231141880507744807931565915797047387176732166nat, 1612625771448909922023865145085706894997287104217423216357437392049576int, 15778400344354997994418419698270088123916926905054652752758194827714659int, 0);
    lemma_pow_step(2, 1972300043044374749302302462283761015489615863131831594094774353464332nat, 8254856538082337252179005302896698680211112509905265330979457160821912int, 15778400344354997994418419698270088123916926905054652752758194827714659int, 0);
    lemma_pow_step(2, 3944600086088749498604604924567522030979231726263663188189548706928664nat, 11896738636365920027591019071546710934666735054539017345655682305068203int, 15778400344354997994418419698270088123916926905054652752758194827714659int, 1);
    lemma_pow_step(2, 7889200172177498997209209849135044061958463452527326376379097413857329nat, 15778400344354997994418419698270088123916926905054652752758194827714658int, 15778400344354997994418419698270088123916926905054652752758194827714659int, 0);
}

/// Square-and-multiply steps 1 to 48 of `2^14021926201120671579994175730661374` modulo `15778400344354997994418419698270088123916926905054652752758194827714659`.
proof fn power_q234_by_q120_0()
    ensures
        pow(2, 380065071242161) % 15778400344354997994418419698270088123916926905054652752758194827714659int == 5764063936650896297457401857321252114012524411913728700126431992897986int,
{
    lemma_pow1(2);
    lemma_small_mod(2, 15778400344354997994418419698270088123916926905054652752758194827714659nat);
    lemma_pow_step(2, 1, 2, 15778400344354997994418419698270088123916926905054652752758194827714659int, 0);
    lemma_pow_step(2, 2, 4, 15778400344354997994418419698270088123916926905054652752758194827714659int, 1);
    lemma_pow_step(2, 5, 32, 15778400344354997994418419698270088123916926905054652752758194827714659int, 0);
    lemma_pow_step(2, 10, 1024, 15778400344354997994418419698270088123916926905054652752758194827714659int, 1);
    lemma_pow_step(2, 21, 2097152, 15778400344354997994418419698270088123916926905054652752758194827714659int, 1);
    lemma_pow_step(2, 43, 8796093022208, 15778400344354997994418419698270088123916926905054652752758194827714659int, 0);
    lemma_pow_step(2, 86, 77371252455336267181195264int, 15778400344354997994418419698270088123916926905054652752758194827714659int, 0);
    lemma_pow_step(2, 172, 5986310706507378352962293074805895248510699696029696int, 15778400344354997994418419698270088123916926905054652752758194827714659int, 1);
    lemma_pow_step(2, 345, 12207919497039169642189766595828077316647068041284324426068424903667987int, 15778400344354997994418419698270088123916926905054652752758194827714659int, 1);
    lemma_pow_step(2, 691, 7614353056675102923155577017793432074955839001736172681493472125313153int, 15778400344354997994418419698270088123916926905054652752758194827714659int, 0);
    lemma_pow_step(2, 1382, 11745592313077015568767677437950092529112573767410795876002261632728259int, 15778400344354997994418419698270088123916926905054652752758194827714659int, 1);
    lemma_pow_step(2, 2765, 13111434032460429382305284190019360828456186889598913892114239380683872int, 15778400344354997994418419698270088123916926905054652752758194827714659int, 0);
    lemma_pow_step(2, 5530, 7958873365470605627463472801149320782336388743967891934134290335675344int, 15778400344354997994418419698270088123916926905054652752758194827714659int, 1);
    lemma_pow_step(2, 11061, 1626774092144409575374651422888557890494470684178870152220695473601231int, 15778400344354997994418419698270088123916926905054652752758194827714659int, 0);
    lemma_pow_step(2, 22122, 6063525977829897933274924985475512574305546614520306093608769318847712int, 15778400344354997994418419698270088123916926905054652752758194827714659int, 1);
    lemma_pow_step(2, 44245, 4144530353605711802592971765635548757948276909098564594705376201325833int, 15778400344354997994418419698270088123916926905054652752758194827714659int, 0);
    lemma_pow_step(2, 88490, 619608649145344007828787379887613481320315227647027228649111437376693int, 15778400344354997994418419698270088123916926905054652752758194827714659int, 1);
    lemma_pow_step(2, 176981, 2640791264290979301492094506625074911334933881206465493214687752200596int, 15778400344354997994418419698270088123916926905054652752758194827714659int, 1);
    lemma_pow_step(2, 353963, 11079345794472550643665013341809517550358862196872837778949607888489059int, 15778400344354997994418419698270088123916926905054652752758194827714659int, 0);
    lemma_pow_step(2, 707926, 8904796420274949760991418606051856710550428784926216979815757473981284int, 15778400344354997994418419698270088123916926905054652752758194827714659int, 0);
    lemma_pow_step(2, 1415852, 3991872538665581591017926424435114282821970846821975108964806146337525int, 15778400344354997994418419698270088123916926905054652752758194827714659int, 1);
    lemma_pow_step(2, 2831705, 14938777055706752317429188083437852943730673950681728809261627124017844int, 15778400344354997994418419698270088123916926905054652752758194827714659int, 0);
    lemma_pow_step(2, 5663410, 5084843038372302143071876822076792523150880854090300897012342274336112int, 15778400344354997994418419698270088123916926905054652752758194827714659int, 1);
    lemma_pow_step(2, 11326821, 652200595576355886966194003814168636849902414569839958695414764038554int, 15778400344354997994418419698270088123916926905054652752758194827714659int, 1);
    lemma_pow_step(2, 22653643, 7990961844973007684713152031471141842596714312632013479939076416288630int, 15778400344354997994418419698270088123916926905054652752758194827714659int, 1);
    lemma_pow_step(2, 45307287, 4699442182348487538266158054375620525179332095547393668577946352816460int, 15778400344354997994418419698270088123916926905054652752758194827714659int, 0);
    lemma_pow_step(2, 90614574, 10948120388695867395077962231039310742553876628395684399536693446745012int, 15778400344354997994418419698270088123916926905054652752758194827714659int, 0);
    lemma_pow_step(2, 181229148, 1827235878928008232341476008992389753105962048033687486244291620107566int, 15778400344354997994418419698270088123916926905054652752758194827714659int, 1);
    lemma_pow_step(2, 362458297, 3397625052638000420387052457605624771888419694626407826693246216670633int, 15778400344354997994418419698270088123916926905054652752758194827714659int, 0);
    lemma_pow_step(2, 724916594, 1316332205458945469840479413471754401828541157981142739732585503111266int, 15778400344354997994418419698270088123916926905054652752758194827714659int, 0);
    lemma_pow_step(2, 1449833188, 6810307116252885671369004454581039163775744584053677846046269284784051int, 15778400344354997994418419698270088123916926905054652752758194827714659int, 0);
    lemma_pow_step(2, 2899666376, 5986317025563350782260152652380650596714405157814332506694903491249889int, 15778400344354997994418419698270088123916926905054652752758194827714659int, 0);
    lemma_pow_step(2, 5799332752, 1041614098079858411905513560246785779050579972850983211640243502040211int, 15778400344354997994418419698270088123916926905054652752758194827714659int, 0);
    lemma_pow_step(2, 11598665504, 12959662913089131120593468932890908397743538969006523404116752112893269int, 15778400344354997994418419698270088123916926905054652752758194827714659int, 0);
    lemma_pow_step(2, 23197331008, 881429949252133654907809753910645113330749654857752878839859338624430int, 15778400344354997994418419698270088123916926905054652752758194827714659int, 0);
    lemma_pow_step(2, 46394662016, 13926589571707865704365057054862436092862929049089659461345972272143481int, 15778400344354997994418419698270088123916926905054652752758194827714659int, 1);
    lemma_pow_step(2, 92789324033, 575008054605003023946680883727799716854732338449715526431411989044852int, 15778400344354997994418419698270088123916926905054652752758194827714659int, 1);
    lemma_pow_step(2, 185578648067, 2048219088929945018759731412735259070759651993268206546166150191560250int, 15778400344354997994418419698270088123916926905054652752758194827714659int, 0);
    lemma_pow_step(2, 371157296134, 9633091992689485042116447724949476488544596919729324019828909024702290int, 15778400344354997994418419698270088123916926905054652752758194827714659int, 1);
    lemma_pow_step(2, 742314592269, 7862296152038376103243302041550694381790204962292640604199355324272376int, 15778400344354997994418419698270088123916926905054652752758194827714659int, 1);
    lemma_pow_step(2, 1484629184539, 15178242890991653243519641530244315178807694278989295875976234044894534int, 15778400344354997994418419698270088123916926905054652752758194827714659int, 1);
    lemma_pow_step(2, 2969258369079, 1308177885519185920863897519112496021826626146896080653849570238324557int, 15778400344354997994418419698270088123916926905054652752758194827714659int, 0);
    lemma_pow_step(2, 5938516738158, 4885961064764910275666193982261264297221146237369891750178093042691786int, 15778400344354997994418419698270088123916926905054652752758194827714659int, 1);
    lemma_pow_step(2, 11877033476317, 13009982572932775128507753749903553571839194177129740659657309109632792int, 15778400344354997994418419698270088123916926905054652752758194827714659int, 1);
    lemma_pow_step(2, 23754066952635, 11161193625545053733837393362666876594530771465547415353569793551995159int, 15778400344354997994418419698270088123916926905054652752758194827714659int, 0);
    lemma_pow_step(2, 47508133905270, 9041287653550296833754562375163123593302787424145417527648169986432213int, 15778400344354997994418419698270088123916926905054652752758194827714659int, 0);
    lemma_pow_step(2, 95016267810540, 9221971740985225359990747316505768039733873434822428506332423947511216int, 15778400344354997994418419698270088123916926905054652752758194827714659int, 0);
    lemma_pow_step(2, 190032535621080, 487477554937467043853743548468032919245232767159982202787101633869914int, 15778400344354997994418419698270088123916926905054652752758194827714659int, 1);
}

/// Square-and-multiply steps 49 to 96 of `2^14021926201120671579994175730661374` modulo `15778400344354997994418419698270088123916926905054652752758194827714659`.
proof fn power_q234_by_q120_1()
    requires
        pow(2, 380065071242161) % 15778400344354997994418419698270088123916926905054652752758194827714659int == 5764063936650896297457401857321252114012524411913728700126431992897986int,
    ensures
        pow(2, 106978807076421139373734861226nat) % 15778400344354997994418419698270088123916926905054652752758194827714659int == 6489480423846364903185880468646630275067404690151782860529881217851439int,
{
    lemma_pow_step(2, 380065071242161, 5764063936650896297457401857321252114012524411913728700126431992897986int, 15778400344354997994418419698270088123916926905054652752758194827714659int, 0);
    lemma_pow_step(2, 760130142484322, 10587433887679762884087017026726482565983962199127862592397970565544862int, 15778400344354997994418419698270088123916926905054652752758194827714659int, 0);
    lemma_pow_step(2, 1520260284968644, 742075369995104187867196644399033891450828739765897332575061218212597int, 15778400344354997994418419698270088123916926905054652752758194827714659int, 1);
    lemma_pow_step(2, 3040520569937289, 13170917385262302401013102357469221523532277885789151743301432058664112int, 15778400344354997994418419698270088123916926905054652752758194827714659int, 1);
    lemma_pow_step(2, 6081041139874579, 4268501325585893282841001470543565113262383611743948974353953954247389int, 15778400344354997994418419698270088123916926905054652752758194827714659int, 0);
    lemma_pow_step(2, 12162082279749158, 3645488325409017122000760397106170871857561658908007459428687215614328int, 15778400344354997994418419698270088123916926905054652752758194827714659int, 1);
    lemma_pow_step(2, 24324164559498317, 458674804212245979109404191841124051264010134163001046485945208115328int, 15778400344354997994418419698270088123916926905054652752758194827714659int, 0);
    lemma_pow_step(2, 48648329118996634, 12326538692706909078329116357917227527329351242835785538718184050973293int, 15778400344354997994418419698270088123916926905054652752758194827714659int, 1);
    lemma_pow_step(2, 97296658237993269, 7321670597372319756652943993803626453876553279735221150534485076917069int, 15778400344354997994418419698270088123916926905054652752758194827714659int, 0);
    lemma_pow_step(2, 194593316475986538, 1451386987474973764525646350723405402794084028866748017179886229210928int, 15778400344354997994418419698270088123916926905054652752758194827714659int, 0);
    lemma_pow_step(2, 389186632951973076, 12834192370798410613042111104658916131979871817625510129984484944540636int, 15778400344354997994418419698270088123916926905054652752758194827714659int, 1);
    lemma_pow_step(2, 778373265903946153, 3706918045832814354585193814828754549344601478917844464533676958937785int, 15778400344354997994418419698270088123916926905054652752758194827714659int, 0);
    lemma_pow_step(2, 1556746531807892306, 14282184972025369986388319028177624312665349330426956179534856965335696int, 15778400344354997994418419698270088123916926905054652752758194827714659int, 0);
    lemma_pow_step(2, 3113493063615784612, 15634570624847157664706305615509709748768063327004032259093795347475723int, 15778400344354997994418419698270088123916926905054652752758194827714659int, 1);
    lemma_pow_step(2, 6226986127231569225, 20774138693961222654594149273377287227461582848887166986790483564529int, 15778400344354997994418419698270088123916926905054652752758194827714659int, 1);
    lemma_pow_step(2, 12453972254463138451nat, 7043129873385566165509609683767980269379077244086941782967965202857501int, 15778400344354997994418419698270088123916926905054652752758194827714659int, 1);
    lemma_pow_step(2, 24907944508926276903nat, 7138426703073465446568540100712887045492792376894828323073375615920315int, 15778400344354997994418419698270088123916926905054652752758194827714659int, 0);
    lemma_pow_step(2, 49815889017852553806nat, 11074163844360764418940223781650559277982031550014015424775046309230591int, 15778400344354997994418419698270088123916926905054652752758194827714659int, 0);
    lemma_pow_step(2, 99631778035705107612nat, 4883603422295595062527340958976185441741376969198840783367681545835921int, 15778400344354997994418419698270088123916926905054652752758194827714659int, 0);
    lemma_pow_step(2, 199263556071410215224nat, 14071017365203109647193427666950940813030565882134913964555870828304061int, 15778400344354997994418419698270088123916926905054652752758194827714659int, 1);
    lemma_pow_step(2, 398527112142820430449nat, 957874939630015786453855555242628172962914393211418458784989602731029int, 15778400344354997994418419698270088123916926905054652752758194827714659int, 0);
    lemma_pow_step(2, 797054224285640860898nat, 14340594074668774415274482079448193068142629490134087683559039691019612int, 15778400344354997994418419698270088123916926905054652752758194827714659int, 0);
    lemma_pow_step(2, 1594108448571281721796nat, 11233559785138522045263140285425366600892326371559735543976311598174101int, 15778400344354997994418419698270088123916926905054652752758194827714659int, 1);
    lemma_pow_step(2, 3188216897142563443593nat, 12290466142258024179548756593157343987620627858957887725193160178888346int, 15778400344354997994418419698270088123916926905054652752758194827714659int, 0);
    lemma_pow_step(2, 6376433794285126887186nat, 5977359796239387986203911432345923209225803998071535044882577197216768int, 15778400344354997994418419698270088123916926905054652752758194827714659int, 0);
    lemma_pow_step(2, 12752867588570253774372nat, 12579282809644957195260233300404514008141537133896846791743880122974626int, 15778400344354997994418419698270088123916926905054652752758194827714659int, 1);
    lemma_pow_step(2, 25505735177140507548745nat, 10101621510817533225427424116901677167345456049811935286412238517664944int, 15778400344354997994418419698270088123916926905054652752758194827714659int, 1);
    lemma_pow_step(2, 51011470354281015097491nat, 2222546494612970825068320816526098721631420633204493782038953746574022int, 15778400344354997994418419698270088123916926905054652752758194827714659int, 1);
    lemma_pow_step(2, 102022940708562030194983nat, 4037168458938813692721635690751877081539733446901240727688720279391918int, 15778400344354997994418419698270088123916926905054652752758194827714659int, 0);
    lemma_pow_step(2, 204045881417124060389966nat, 7590864472571288182249161908935792294878443650361603833610881257509223int, 15778400344354997994418419698270088123916926905054652752758194827714659int, 1);
    lemma_pow_step(2, 408091762834248120779933nat, 7661944599151705274601153069915660937233025762426469167124525243938093int, 15778400344354997994418419698270088123916926905054652752758194827714659int, 0);
    lemma_pow_step(2, 816183525668496241559866nat, 168162920573640298728048301950159173712468713921482691981979129391963int, 15778400344354997994418419698270088123916926905054652752758194827714659int, 1);
    lemma_pow_step(2, 1632367051336992483119733nat, 10516272524076576932557825583770580481451228044385252819885181022496662int, 15778400344354997994418419698270088123916926905054652752758194827714659int, 1);
    lemma_pow_step(2, 3264734102673984966239467nat, 4188921390900852813147364735724198621648476148778039715468928107844523int, 15778400344354997994418419698270088123916926905054652752758194827714659int, 0);
    lemma_pow_step(2, 6529468205347969932478934nat, 12295716572380578663864192458623893327940285816071162602306371562404944int, 15778400344354997994418419698270088123916926905054652752758194827714659int, 0);
    lemma_pow_step(2, 13058936410695939864957868nat, 15730855510712095336787879514400526555575830683940018796078174504344052int, 15778400344354997994418419698270088123916926905054652752758194827714659int, 1);
    lemma_pow_step(2, 26117872821391879729915737nat, 10822614288198699992158371100550409140636485284037476186025039944526426int, 15778400344354997994418419698270088123916926905054652752758194827714659int, 1);
    lemma_pow_step(2, 52235745642783759459831475nat, 9832864305953119956045731735926603118349878493137382166235189184403285int, 15778400344354997994418419698270088123916926905054652752758194827714659int, 0);
    lemma_pow_step(2, 104471491285567518919662950nat, 4546223192446079414339369903824678411094966572396190507737510029117986int, 15778400344354997994418419698270088123916926905054652752758194827714659int, 0);
    lemma_pow_step(2, 208942982571135037839325900nat, 1969397792334682057210912724299053136673210811385315495389233608733197int, 15778400344354997994418419698270088123916926905054652752758194827714659int, 1);
    lemma_pow_step(2, 417885965142270075678651801nat, 14610801389301511026669090943594401306926234690441615128395043291410536int, 15778400344354997994418419698270088123916926905054652752758194827714659int, 1);
    lemma_pow_step(2, 835771930284540151357303603nat, 8275140125036051190132387712006625098725772180707680990499742211680139int, 15778400344354997994418419698270088123916926905054652752758194827714659int, 0);
    lemma_pow_step(2, 1671543860569080302714607206nat, 11875487267935362687668575527506828442076927001596310133346358489812984int, 15778400344354997994418419698270088123916926905054652752758194827714659int, 1);
    lemma_pow_step(2, 3343087721138160605429214413nat, 6741724579916029213833087779229942122648914102172708687008898776121252int, 15778400344354997994418419698270088123916926905054652752758194827714659int, 0);
    lemma_pow_step(2, 6686175442276321210858428826nat, 6708889894039871652310916300527055298335613656003470200774197759277217int, 15778400344354997994418419698270088123916926905054652752758194827714659int, 1);
    lemma_pow_step(2, 13372350884552642421716857653nat, 4419943084696330119501157570423069503979521547579212687736131252113246int, 15778400344354997994418419698270088123916926905054652752758194827714659int, 0);
    lemma_pow_step(2, 26744701769105284843433715306nat, 2857483283375816608040958138861007362171990046395848214069109374080143int, 15778400344354997994418419698270088123916926905054652752758194827714659int, 1);
    lemma_pow_step(2, 53489403538210569686867430613nat, 11345691948542450068239572637173420361583054746823977765911120111061693int, 15778400344354997994418419698270088123916926905054652752758194827714659int, 0);
}

/// Square-and-multiply steps 97 to 113 of `2^14021926201120671579994175730661374` modulo `15778400344354997994418419698270088123916926905054652752758194827714659`.
proof fn power_q234_by_q120_2()
    requires
        pow(2, 106978807076421139373734861226nat) % 15778400344354997994418419698270088123916926905054652752758194827714659int == 6489480423846364903185880468646630275067404690151782860529881217851439int,
    ensures
        pow(2, 14021926201120671579994175730661374nat) % 15778400344354997994418419698270088123916926905054652752758194827714659int == 584602478677671312863650330581164049005241475155695537731613712292485int,
{
    lemma_pow_step(2, 106978807076421139373734861226nat, 6489480423846364903185880468646630275067404690151782860529881217851439int, 15778400344354997994418419698270088123916926905054652752758194827714659int, 0);
    lemma_pow_step(2, 213957614152842278747469722452nat, 7254413793422679040172088004617514421802011046697380711056364064911684int, 15778400344354997994418419698270088123916926905054652752758194827714659int, 1);
    lemma_pow_step(2, 427915228305684557494939444905nat, 1113245138878921900873437580303615077145256028133656849312791816004962int, 15778400344354997994418419698270088123916926905054652752758194827714659int, 0);
    lemma_pow_step(2, 855830456611369114989878889810nat, 12482741591290116032988591143773056686475078256363623494562135575771398int, 15778400344354997994418419698270088123916926905054652752758194827714659int, 1);
    lemma_pow_step(2, 1711660913222738229979757779621nat, 3108742756557909765941162040797157935921045229977339368680023433018585int, 15778400344354997994418419698270088123916926905054652752758194827714659int, 1);
    lemma_pow_step(2, 3423321826445476459959515559243nat, 9348617004199685581164534675694923801500985045939232354430851244506440int, 15778400344354997994418419698270088123916926905054652752758194827714659int, 0);
    lemma_pow_step(2, 6846643652890952919919031118486nat, 15710924284918519466299492047533389389520459712106762197769607132676062int, 15778400344354997994418419698270088123916926905054652752758194827714659int, 1);
    lemma_pow_step(2, 13693287305781905839838062236973nat, 14842355158456707547970591830760591245214624596274503301104533600860581int, 15778400344354997994418419698270088123916926905054652752758194827714659int, 1);
    lemma_pow_step(2, 27386574611563811679676124473947nat, 11178996538447423873862008118477943352032478842884665099054526459111493int, 15778400344354997994418419698270088123916926905054652752758194827714659int, 1);
    lemma_pow_step(2, 54773149223127623359352248947895nat, 4584826075275329618886199778160489315949118927068038097870918590889479int, 15778400344354997994418419698270088123916926905054652752758194827714659int, 1);
    lemma_pow_step(2, 109546298446255246718704497895791nat, 10102252262070735685755191171223064286246063924258785315159071270400841int, 15778400344354997994418419698270088123916926905054652752758194827714659int, 1);
    lemma_pow_step(2, 219092596892510493437408995791583nat, 3327404364024858877076493657267646746645387799085747456786252798556327int, 15778400344354997994418419698270088123916926905054652752758194827714659int, 1);
    lemma_pow_step(2, 438185193785020986874817991583167nat, 5794782468522711750158883292795201514255851958984168975980351297799515int, 15778400344354997994418419698270088123916926905054652752758194827714659int, 1);
    lemma_pow_step(2, 876370387570041973749635983166335nat, 9259957959063702516868986382653803373600788908444358101230934800019386int, 15778400344354997994418419698270088123916926905054652752758194827714659int, 1);
    lemma_pow_step(2, 1752740775140083947499271966332671nat, 5794394022156044143000140823604387778062956083794959216692260988805091int, 15778400344354997994418419698270088123916926905054652752758194827714659int, 1);
    lemma_pow_step(2, 3505481550280167894998543932665343nat, 12722223453057487078548688394306938223186214980750113955496919665762734int, 15778400344354997994418419698270088123916926905054652752758194827714659int, 1);
    lemma_pow_step(2, 7010963100560335789997087865330687nat, 15393532977108495688342818136747316661943449465946287777986787985640875int, 15778400344354997994418419698270088123916926905054652752758194827714659int, 0);
}

/// Square-and-multiply steps 1 to 48 of `2^1125266252156850182658904441386709966` modulo `1125266252156850182658904441386709967`.
proof fn power_q120_full_0()
    ensures
        pow(2, 476568795005108) % 1125266252156850182658904441386709967int == 1079368772805410128704298436424527569int,
{
    lemma_pow1(2);
    lemma_small_mod(2, 1125266252156850182658904441386709967nat);
    lemma_pow_step(2, 1, 2, 1125266252156850182658904441386709967int, 1);
    lemma_pow_step(2, 3, 8, 1125266252156850182658904441386709967int, 0);
    lemma_pow_step(2, 6, 64, 1125266252156850182658904441386709967int, 1);
    lemma_pow_step(2, 13, 8192, 1125266252156850182658904441386709967int, 1);
    lemma_pow_step(2, 27, 134217728, 1125266252156850182658904441386709967int, 0);
    lemma_pow_step(2, 54, 18014398509481984, 1125266252156850182658904441386709967int, 0);
    lemma_pow_step(2, 108, 324518553658426726783156020576256int, 1125266252156850182658904441386709967int, 0);
    lemma_pow_step(2, 216, 1017855432060878433738618647706509567int, 1125266252156850182658904441386709967int, 1);
    lemma_pow_step(2, 433, 868107899089232173304703575908000419int, 1125266252156850182658904441386709967int, 0);
    lemma_pow_step(2, 866, 13553403712290019341772836951533286int, 1125266252156850182658904441386709967int, 1);
    lemma_pow_step(2, 1733, 751190645986130975489955130837132667int, 1125266252156850182658904441386709967int, 1);
    lemma_pow_step(2, 3467, 1113463476906085112072478982986752910int, 1125266252156850182658904441386709967int, 0);
    lemma_pow_step(2, 6934, 437443509095370112800022474309291886int, 1125266252156850182658904441386709967int, 1);
    lemma_pow_step(2, 13869, 420189707272225116498714861099625233int, 1125266252156850182658904441386709967int, 1);
    lemma_pow_step(2, 27739, 907086367906251039458787187000657861int, 1125266252156850182658904441386709967int, 1);
    lemma_pow_step(2, 55479, 130854834491962897037851814323355272int, 1125266252156850182658904441386709967int, 1);
    lemma_pow_step(2, 110959, 384332678077417214022226728224914391int, 1125266252156850182658904441386709967int, 1);
    lemma_pow_step(2, 221919, 164184359359713023725037234199355101int, 1125266252156850182658904441386709967int, 1);
    lemma_pow_step(2, 443839, 840536730358983512686587657057681644int, 1125266252156850182658904441386709967int, 0);
    lemma_pow_step(2, 887678, 869507368014455170332809417161741342int, 1125266252156850182658904441386709967int, 1);
    lemma_pow_step(2, 1775357, 1125236952784363639605523044933168480int, 1125266252156850182658904441386709967int, 0);
    lemma_pow_step(2, 3550714, 91023574029892065240948722859644596int, 1125266252156850182658904441386709967int, 0);
    lemma_pow_step(2, 7101428, 820377848396737649617370281757399632int, 1125266252156850182658904441386709967int, 0);
    lemma_pow_step(2, 14202856, 473514102716405397257121753907481792int, 1125266252156850182658904441386709967int, 1);
    lemma_pow_step(2, 28405713, 278430073650203276176260763126769752int, 1125266252156850182658904441386709967int, 1);
    lemma_pow_step(2, 56811427, 946042717284075307149883520808101440int, 1125266252156850182658904441386709967int, 0);
    lemma_pow_step(2, 113622854, 242740914642406515629701604527535511int, 1125266252156850182658904441386709967int, 1);
    lemma_pow_step(2, 227245709, 1088482681815465111004835640258802290int, 1125266252156850182658904441386709967int, 1);
    lemma_pow_step(2, 454491419, 500459792006025452910886746113875420int, 1125266252156850182658904441386709967int, 1);
    lemma_pow_step(2, 908982839, 340303416416248789378758095168294182int, 1125266252156850182658904441386709967int, 1);
    lemma_pow_step(2, 1817965679, 338309475892396520764751911859276282int, 1125266252156850182658904441386709967int, 0);
    lemma_pow_step(2, 3635931358, 585194914538404238041338348679042820int, 1125266252156850182658904441386709967int, 0);
    lemma_pow_step(2, 7271862716, 983280609694425876353838757105803523int, 1125266252156850182658904441386709967int, 1);
    lemma_pow_step(2, 14543725433, 864371480161095042683734016092213755int, 1125266252156850182658904441386709967int, 1);
    lemma_pow_step(2, 29087450867, 658677773805801878320710270639905971int, 1125266252156850182658904441386709967int, 0);
    lemma_pow_step(2, 58174901734, 417437757117942971194077633512483570int, 1125266252156850182658904441386709967int, 0);
    lemma_pow_step(2, 116349803468, 939883205704225965441990600982555178int, 1125266252156850182658904441386709967int, 0);
    lemma_pow_step(2, 232699606936, 838953444061739237804847379436243693int, 1125266252156850182658904441386709967int, 0);
    lemma_pow_step(2, 465399213872, 453347096786232679208867291549699094int, 1125266252156850182658904441386709967int, 0);
    lemma_pow_step(2, 930798427744, 435426773364150865363997142045454935int, 1125266252156850182658904441386709967int, 0);
    lemma_pow_step(2, 1861596855488, 855010746895408672139993437031636841int, 1125266252156850182658904441386709967int, 1);
    lemma_pow_step(2, 3723193710977, 535624091653817768772991452359196458int, 1125266252156850182658904441386709967int, 0);
    lemma_pow_step(2, 7446387421954, 69079866776170018254937303504966944int, 1125266252156850182658904441386709967int, 1);
    lemma_pow_step(2, 14892774843909, 21854960677454306835830725914960507int, 1125266252156850182658904441386709967int, 1);
    lemma_pow_step(2, 29785549687819, 554854227246497838692273274085887965int, 1125266252156850182658904441386709967int, 0);
    lemma_pow_step(2, 59571099375638, 862239085137248240621094675249911533int, 1125266252156850182658904441386709967int, 1);
    lemma_pow_step(2, 119142198751277, 964484873394974711774109323327794098int, 1125266252156850182658904441386709967int, 0);
    lemma_pow_step(2, 238284397502554, 843272255256438413101413016316184425int, 1125266252156850182658904441386709967int, 0);
}

/// Square-and-multiply steps 49 to 96 of `2^1125266252156850182658904441386709966` modulo `1125266252156850182658904441386709967`.
proof fn power_q120_full_1()
    requires
        pow(2, 476568795005108) % 1125266252156850182658904441386709967int == 1079368772805410128704298436424527569int,
    ensures
        pow(2, 134142190475088379700053267644nat) % 1125266252156850182658904441386709967int == 1124783048947004312999928317108030291int,
{
    lemma_pow_step(2, 476568795005108, 1079368772805410128704298436424527569int, 1125266252156850182658904441386709967int, 1);
    lemma_pow_step(2, 953137590010217, 885920248627652192046611207486535171int, 1125266252156850182658904441386709967int, 1);
    lemma_pow_step(2, 1906275180020435, 769381453411238004475874318784680475int, 1125266252156850182658904441386709967int, 0);
    lemma_pow_step(2, 3812550360040870, 552987375653736444208183711161584230int, 1125266252156850182658904441386709967int, 0);
    lemma_pow_step(2, 7625100720081740, 645403204226980389682863557795922518int, 1125266252156850182658904441386709967int, 0);
    lemma_pow_step(2, 15250201440163480, 8552145159639747923416037313348376int, 1125266252156850182658904441386709967int, 0);
    lemma_pow_step(2, 30500402880326960, 76846630158356036282439103963791160int, 1125266252156850182658904441386709967int, 0);
    lemma_pow_step(2, 61000805760653920, 1089322342295199757311206279706184091int, 1125266252156850182658904441386709967int, 0);
    lemma_pow_step(2, 122001611521307840, 678310319078581751232912394949741042int, 1125266252156850182658904441386709967int, 1);
    lemma_pow_step(2, 244003223042615681, 336531350783747028910128875253103039int, 1125266252156850182658904441386709967int, 1);
    lemma_pow_step(2, 488006446085231363, 753071391515954283844260052115416293int, 1125266252156850182658904441386709967int, 0);
    lemma_pow_step(2, 976012892170462726, 792913076126849735148452514404575421int, 1125266252156850182658904441386709967int, 0);
    lemma_pow_step(2, 1952025784340925452, 849250683137425322361162156518531758int, 1125266252156850182658904441386709967int, 0);
    lemma_pow_step(2, 3904051568681850904, 1057975882960010501411397186818994668int, 1125266252156850182658904441386709967int, 0);
    lemma_pow_step(2, 7808103137363701808, 491283343762583524843182359368059356int, 1125266252156850182658904441386709967int, 1);
    lemma_pow_step(2, 15616206274727403617nat, 145982196064059316818340175066744806int, 1125266252156850182658904441386709967int, 0);
    lemma_pow_step(2, 31232412549454807234nat, 313630852868182802151352992174680316int, 1125266252156850182658904441386709967int, 0);
    lemma_pow_step(2, 62464825098909614468nat, 277662841106659217513575333921859764int, 1125266252156850182658904441386709967int, 0);
    lemma_pow_step(2, 124929650197819228936nat, 1004690254948517246920991108521820558int, 1125266252156850182658904441386709967int, 0);
    lemma_pow_step(2, 249859300395638457872nat, 493144850232413653205505826391257310int, 1125266252156850182658904441386709967int, 0);
    lemma_pow_step(2, 499718600791276915744nat, 360439602728846339752976964286113660int, 1125266252156850182658904441386709967int, 0);
    lemma_pow_step(2, 999437201582553831488nat, 948115888675771191651694350637558869int, 1125266252156850182658904441386709967int, 0);
    lemma_pow_step(2, 1998874403165107662976nat, 22923286520070882454772129092562757int, 1125266252156850182658904441386709967int, 1);
    lemma_pow_step(2, 3997748806330215325953nat, 58073623804090990969793720976361377int, 1125266252156850182658904441386709967int, 0);
    lemma_pow_step(2, 7995497612660430651906nat, 52917265767625019041816762224178490int, 1125266252156850182658904441386709967int, 0);
    lemma_pow_step(2, 15990995225320861303812nat, 676843242157034392939155923211217245int, 1125266252156850182658904441386709967int, 1);
    lemma_pow_step(2, 31981990450641722607625nat, 810641402740464269360604763527556586int, 1125266252156850182658904441386709967int, 0);
    lemma_pow_step(2, 63963980901283445215250nat, 308937194977672018948797316747094935int, 1125266252156850182658904441386709967int, 1);
    lemma_pow_step(2, 127927961802566890430501nat, 855079825461012824653542718365292833int, 1125266252156850182658904441386709967int, 0);
    lemma_pow_step(2, 255855923605133780861002nat, 3853047218548621450701698577911103int, 1125266252156850182658904441386709967int, 0);
    lemma_pow_step(2, 511711847210267561722004nat, 595350642630458457546844102059815991int, 1125266252156850182658904441386709967int, 1);
    lemma_pow_step(2, 1023423694420535123444009nat, 767393302435319949315539260927812197int, 1125266252156850182658904441386709967int, 1);
    lemma_pow_step(2, 2046847388841070246888019nat, 910735638839430623036693693662821929int, 1125266252156850182658904441386709967int, 1);
    lemma_pow_step(2, 4093694777682140493776039nat, 759725323183098540498002478351541863int, 1125266252156850182658904441386709967int, 1);
    lemma_pow_step(2, 8187389555364280987552079nat, 907772422886320903059394416543796516int, 1125266252156850182658904441386709967int, 0);
    lemma_pow_step(2, 16374779110728561975104158nat, 745551778817783531148078958165440272int, 1125266252156850182658904441386709967int, 1);
    lemma_pow_step(2, 32749558221457123950208317nat, 1089207255042044384327208384290428677int, 1125266252156850182658904441386709967int, 0);
    lemma_pow_step(2, 65499116442914247900416634nat, 812747627343441548068716232499558143int, 1125266252156850182658904441386709967int, 1);
    lemma_pow_step(2, 130998232885828495800833269nat, 639333510152975934798704227776566794int, 1125266252156850182658904441386709967int, 0);
    lemma_pow_step(2, 261996465771656991601666538nat, 3359923457188189478796809293166311int, 1125266252156850182658904441386709967int, 0);
    lemma_pow_step(2, 523992931543313983203333076nat, 826857873471054557497514231459139665int, 1125266252156850182658904441386709967int, 1);
    lemma_pow_step(2, 1047985863086627966406666153nat, 952087867465511027495112019518194089int, 1125266252156850182658904441386709967int, 0);
    lemma_pow_step(2, 2095971726173255932813332306nat, 785576875209011294952489865567634437int, 1125266252156850182658904441386709967int, 1);
    lemma_pow_step(2, 4191943452346511865626664613nat, 826111345679733933736335781590191068int, 1125266252156850182658904441386709967int, 1);
    lemma_pow_step(2, 8383886904693023731253329227nat, 861995955358321010034255215554534951int, 1125266252156850182658904441386709967int, 1);
    lemma_pow_step(2, 16767773809386047462506658455nat, 190673650610236593680366480120653185int, 1125266252156850182658904441386709967int, 1);
    lemma_pow_step(2, 33535547618772094925013316911nat, 544010130826724111828714797368407832int, 1125266252156850182658904441386709967int, 0);
    lemma_pow_step(2, 67071095237544189850026633822nat, 200878923484206824772223136721595756int, 1125266252156850182658904441386709967int, 0);
}

/// Square-and-multiply steps 97 to 119 of `2^1125266252156850182658904441386709966` modulo `1125266252156850182658904441386709967`.
proof fn power_q120_full_2()
    requires
        pow(2, 134142190475088379700053267644nat) % 1125266252156850182658904441386709967int == 1124783048947004312999928317108030291int,
    ensures
        pow(2, 1125266252156850182658904441386709966nat) % 1125266252156850182658904441386709967int == 1,
{
    lemma_pow_step(2, 134142190475088379700053267644nat, 1124783048947004312999928317108030291int, 1125266252156850182658904441386709967int, 0);
    lemma_pow_step(2, 268284380950176759400106535288nat, 712918054992929576226167975791203459int, 1125266252156850182658904441386709967int, 1);
    lemma_pow_step(2, 536568761900353518800213070577nat, 967793723088032756977557988232242574int, 1125266252156850182658904441386709967int, 0);
    lemma_pow_step(2, 1073137523800707037600426141154nat, 960982676444036271746446166262097315int, 1125266252156850182658904441386709967int, 0);
    lemma_pow_step(2, 2146275047601414075200852282308nat, 107015462885942228801587298141989388int, 1125266252156850182658904441386709967int, 0);
    lemma_pow_step(2, 4292550095202828150401704564616nat, 994099294383710033175711553309497319int, 1125266252156850182658904441386709967int, 0);
    lemma_pow_step(2, 8585100190405656300803409129232nat, 339646736439959758101703906965058103int, 1125266252156850182658904441386709967int, 0);
    lemma_pow_step(2, 17170200380811312601606818258464nat, 1102583468430289057084262564356862478int, 1125266252156850182658904441386709967int, 0);
    lemma_pow_step(2, 34340400761622625203213636516928nat, 974261682598293908742686190974609562int, 1125266252156850182658904441386709967int, 0);
    lemma_pow_step(2, 68680801523245250406427273033856nat, 196660017063715598794851210289198937int, 1125266252156850182658904441386709967int, 1);
    lemma_pow_step(2, 137361603046490500812854546067713nat, 764540704636207166239095217730545969int, 1125266252156850182658904441386709967int, 1);
    lemma_pow_step(2, 274723206092981001625709092135427nat, 186671904049501734182156974338446557int, 1125266252156850182658904441386709967int, 0);
    lemma_pow_step(2, 549446412185962003251418184270854nat, 249462167351403747816168484392427520int, 1125266252156850182658904441386709967int, 0);
    lemma_pow_step(2, 1098892824371924006502836368541708nat, 524904643699966132318629910571267366int, 1125266252156850182658904441386709967int, 1);
    lemma_pow_step(2, 2197785648743848013005672737083417nat, 862155049176578780896788430602387190int, 1125266252156850182658904441386709967int, 1);
    lemma_pow_step(2, 4395571297487696026011345474166835nat, 465616952689408345768826244462608135int, 1125266252156850182658904441386709967int, 1);
    lemma_pow_step(2, 8791142594975392052022690948333671nat, 1076914149128185063788907108182063420int, 1125266252156850182658904441386709967int, 1);
    lemma_pow_step(2, 17582285189950784104045381896667343nat, 587484789913211457823958525308254278int, 1125266252156850182658904441386709967int, 0);
    lemma_pow_step(2, 35164570379901568208090763793334686nat, 1083119954330391160739868562448567632int, 1125266252156850182658904441386709967int, 0);
    lemma_pow_step(2, 70329140759803136416181527586669372nat, 363256470133576196933729515283194836int, 1125266252156850182658904441386709967int, 1);
    lemma_pow_step(2, 140658281519606272832363055173338745nat, 412527559853116151575268420154065882int, 1125266252156850182658904441386709967int, 1);
    lemma_pow_step(2, 281316563039212545664726110346677491nat, 617530981229538870029173902115844476int, 1125266252156850182658904441386709967int, 1);
    lemma_pow_step(2, 562633126078425091329452220693354983nat, 1, 1125266252156850182658904441386709967int, 0);
}

/// Square-and-multiply steps 1 to 48 of `2^294598235223046` modulo `1125266252156850182658904441386709967`.
proof fn power_q120_by_q72_0()
    ensures
        pow(2, 294598235223046) % 1125266252156850182658904441386709967int == 569094264676275985966734733593272495int,
{
    lemma_pow1(2);
    lemma_small_mod(2, 1125266252156850182658904441386709967nat);
    lemma_pow_step(2, 1, 2, 1125266252156850182658904441386709967int, 0);
    lemma_pow_step(2, 2, 4, 1125266252156850182658904441386709967int, 0);
    lemma_pow_step(2, 4, 16, 1125266252156850182658904441386709967int, 0);
    lemma_pow_step(2, 8, 256, 1125266252156850182658904441386709967int, 0);
    lemma_pow_step(2, 16, 65536, 1125266252156850182658904441386709967int, 1);
    lemma_pow_step(2, 33, 8589934592, 1125266252156850182658904441386709967int, 0);
    lemma_pow_step(2, 66, 73786976294838206464int, 1125266252156850182658904441386709967int, 1);
    lemma_pow_step(2, 133, 959485600348463420428062958777125900int, 1125266252156850182658904441386709967int, 1);
    lemma_pow_step(2, 267, 718435759155202037663571545566890214int, 1125266252156850182658904441386709967int, 1);
    lemma_pow_step(2, 535, 741898781556489231705670292312756205int, 1125266252156850182658904441386709967int, 1);
    lemma_pow_step(2, 1071, 41312262322078775015661187091290138int, 1125266252156850182658904441386709967int, 1);
    lemma_pow_step(2, 2143, 106640978211370882523536616623537115int, 1125266252156850182658904441386709967int, 0);
    lemma_pow_step(2, 4286, 845483366195940226593750197980250895int, 1125266252156850182658904441386709967int, 1);
    lemma_pow_step(2, 8573, 324160768522469612162960201760749484int, 1125266252156850182658904441386709967int, 1);
    lemma_pow_step(2, 17147, 1106631842623737935533964939662199323int, 1125266252156850182658904441386709967int, 1);
    lemma_pow_step(2, 34295, 72415641333677564327739802452244315int, 1125266252156850182658904441386709967int, 1);
    lemma_pow_step(2, 68591, 675094494268439978264304920367113728int, 1125266252156850182658904441386709967int, 0);
    lemma_pow_step(2, 137182, 674579746871096957784620807456555453int, 1125266252156850182658904441386709967int, 1);
    lemma_pow_step(2, 274365, 536829483357313363959636522427615740int, 1125266252156850182658904441386709967int, 1);
    lemma_pow_step(2, 548731, 565388755341805132179759341506078391int, 1125266252156850182658904441386709967int, 1);
    lemma_pow_step(2, 1097463, 829934911470996839149145012323948680int, 1125266252156850182658904441386709967int, 1);
    lemma_pow_step(2, 2194927, 327999749681170406912202017780417235int, 1125266252156850182658904441386709967int, 1);
    lemma_pow_step(2, 4389855, 1024267639227010750546920638124250600int, 1125266252156850182658904441386709967int, 1);
    lemma_pow_step(2, 8779711, 58006060315766078582845928749693920int, 1125266252156850182658904441386709967int, 1);
    lemma_pow_step(2, 17559423, 607384558590132159813390892343958783int, 1125266252156850182658904441386709967int, 0);
    lemma_pow_step(2, 35118846, 309966055224319571700228020016234477int, 1125266252156850182658904441386709967int, 0);
    lemma_pow_step(2, 70237692, 259976198270208228953950012492114387int, 1125266252156850182658904441386709967int, 1);
    lemma_pow_step(2, 140475385, 125928839005413183021350991005873863int, 1125266252156850182658904441386709967int, 0);
    lemma_pow_step(2, 280950770, 100121729656845810746205804139226369int, 1125266252156850182658904441386709967int, 1);
    lemma_pow_step(2, 561901541, 563572006143200787074035403342034772int, 1125266252156850182658904441386709967int, 0);
    lemma_pow_step(2, 1123803082, 128732543002916711808925502517295817int, 1125266252156850182658904441386709967int, 0);
    lemma_pow_step(2, 2247606164, 321344662526879180448760215922971539int, 1125266252156850182658904441386709967int, 1);
    lemma_pow_step(2, 4495212329, 524505611766864360459593291164031613int, 1125266252156850182658904441386709967int, 0);
    lemma_pow_step(2, 8990424658, 822536217239262951475989530793513203int, 1125266252156850182658904441386709967int, 1);
    lemma_pow_step(2, 17980849317, 733664298587516842725966186381478784int, 1125266252156850182658904441386709967int, 1);
    lemma_pow_step(2, 35961698635, 546050554598047248468762292604399150int, 1125266252156850182658904441386709967int, 1);
    lemma_pow_step(2, 71923397271, 19288538857656253602429071172731417int, 1125266252156850182658904441386709967int, 0);
    lemma_pow_step(2, 143846794542, 382439756760471689502053290590910679int, 1125266252156850182658904441386709967int, 1);
    lemma_pow_step(2, 287693589085, 1066261801522659545045589258419295060int, 1125266252156850182658904441386709967int, 0);
    lemma_pow_step(2, 575387178170, 483285864513597177011630505620348900int, 1125266252156850182658904441386709967int, 0);
    lemma_pow_step(2, 1150774356340, 179025855449410945345601204522805418int, 1125266252156850182658904441386709967int, 0);
    lemma_pow_step(2, 2301548712680, 605932987757385570805314028223174385int, 1125266252156850182658904441386709967int, 0);
    lemma_pow_step(2, 4603097425360, 442121762297515036631010872285233626int, 1125266252156850182658904441386709967int, 0);
    lemma_pow_step(2, 9206194850720, 670546319665801966190823648510660525int, 1125266252156850182658904441386709967int, 0);
    lemma_pow_step(2, 18412389701440, 1100246505012481244980548262756177044int, 1125266252156850182658904441386709967int, 0);
    lemma_pow_step(2, 36824779402880, 160863085890625091152322864055574854int, 1125266252156850182658904441386709967int, 1);
    lemma_pow_step(2, 73649558805761, 422336525515573763908050814287503139int, 1125266252156850182658904441386709967int, 1);
    lemma_pow_step(2, 147299117611523, 850348932284525542117152085297135721int, 1125266252156850182658904441386709967int, 0);
}

/// Square-and-multiply steps 1 to 48 of `2^3819663927398918131020` modulo `3819663927398918131021`.
proof fn power_q72_full_0()
    ensures
        pow(2, 455339423107971) % 3819663927398918131021int == 2729068338269048021800int,
{
    lemma_pow1(2);
    lemma_small_mod(2, 3819663927398918131021nat);
    lemma_pow_step(2, 1, 2, 3819663927398918131021int, 1);
    lemma_pow_step(2, 3, 8, 3819663927398918131021int, 0);
    lemma_pow_step(2, 6, 64, 3819663927398918131021int, 0);
    lemma_pow_step(2, 12, 4096, 3819663927398918131021int, 1);
    lemma_pow_step(2, 25, 33554432, 3819663927398918131021int, 1);
    lemma_pow_step(2, 51, 2251799813685248, 3819663927398918131021int, 1);
    lemma_pow_step(2, 103, 444275961684159005094int, 3819663927398918131021int, 1);
    lemma_pow_step(2, 207, 2728283021279267890242int, 3819663927398918131021int, 0);
    lemma_pow_step(2, 414, 45530786646588284913int, 3819663927398918131021int, 0);
    lemma_pow_step(2, 828, 3747317760920473313738int, 3819663927398918131021int, 0);
    lemma_pow_step(2, 1656, 3482617072972443327812int, 3819663927398918131021int, 1);
    lemma_pow_step(2, 3313, 2046911418450414893073int, 3819663927398918131021int, 0);
    lemma_pow_step(2, 6626, 1208920972915142311729int, 3819663927398918131021int, 0);
    lemma_pow_step(2, 13252, 832011292183665494112int, 3819663927398918131021int, 0);
    lemma_pow_step(2, 26504, 1325842575621137548056int, 3819663927398918131021int, 0);
    lemma_pow_step(2, 53008, 1425989063422864834341int, 3819663927398918131021int, 0);
    lemma_pow_step(2, 106016, 3063898120255501945981int, 3819663927398918131021int, 1);
    lemma_pow_step(2, 212033, 3285770907598179776887int, 3819663927398918131021int, 1);
    lemma_pow_step(2, 424067, 2694482125471074096324int, 3819663927398918131021int, 1);
    lemma_pow_step(2, 848135, 622719280282832669421int, 3819663927398918131021int, 1);
    lemma_pow_step(2, 1696271, 3583073987504187740122int, 3819663927398918131021int, 1);
    lemma_pow_step(2, 3392543, 3234959077455517967799int, 3819663927398918131021int, 0);
    lemma_pow_step(2, 6785086, 873762372710141867207int, 3819663927398918131021int, 0);
    lemma_pow_step(2, 13570172, 810093907206834135606int, 3819663927398918131021int, 0);
    lemma_pow_step(2, 27140344, 2942307240518316921759int, 3819663927398918131021int, 1);
    lemma_pow_step(2, 54280689, 1087902305827622465642int, 3819663927398918131021int, 0);
    lemma_pow_step(2, 108561378, 3806911927358894358623int, 3819663927398918131021int, 0);
    lemma_pow_step(2, 217122756, 2052851243778875522450int, 3819663927398918131021int, 1);
    lemma_pow_step(2, 434245513, 1794277822042648722349int, 3819663927398918131021int, 0);
    lemma_pow_step(2, 868491026, 2126687818405282227379int, 3819663927398918131021int, 0);
    lemma_pow_step(2, 1736982052, 3806532978797136872187int, 3819663927398918131021int, 0);
    lemma_pow_step(2, 3473964104, 1341110452308712950113int, 3819663927398918131021int, 1);
    lemma_pow_step(2, 6947928209, 1221244159010353439671int, 3819663927398918131021int, 0);
    lemma_pow_step(2, 13895856418, 1700661511192352313101int, 3819663927398918131021int, 0);
    lemma_pow_step(2, 27791712836, 2695635164960400716822int, 3819663927398918131021int, 0);
    lemma_pow_step(2, 55583425672, 2560606108905785452905int, 3819663927398918131021int, 0);
    lemma_pow_step(2, 111166851344, 2168935939108964946834int, 3819663927398918131021int, 1);
    lemma_pow_step(2, 222333702689, 2313455919558411722386int, 3819663927398918131021int, 0);
    lemma_pow_step(2, 444667405378, 493597956865104893714int, 3819663927398918131021int, 1);
    lemma_pow_step(2, 889334810757, 1085203121936185957508int, 3819663927398918131021int, 1);
    lemma_pow_step(2, 1778669621515, 3596491863658640087737int, 3819663927398918131021int, 1);
    lemma_pow_step(2, 3557339243031, 3529365206457155669168int, 3819663927398918131021int, 0);
    lemma_pow_step(2, 7114678486062, 1489652157702141197947int, 3819663927398918131021int, 0);
    lemma_pow_step(2, 14229356972124, 1295048765294857727275int, 3819663927398918131021int, 0);
    lemma_pow_step(2, 28458713944248, 328378583020142902269int, 3819663927398918131021int, 0);
    lemma_pow_step(2, 56917427888496, 3687398221666398624234int, 3819663927398918131021int, 0);
    lemma_pow_step(2, 113834855776992, 1042908667621987818421int, 3819663927398918131021int, 1);
    lemma_pow_step(2, 227669711553985, 1700564320353677916172int, 3819663927398918131021int, 1);
}

/// Square-and-multiply steps 49 to 71 of `2^3819663927398918131020` modulo `3819663927398918131021`.
proof fn power_q72_full_1()
    requires
        pow(2, 455339423107971) % 3819663927398918131021int == 2729068338269048021800int,
    ensures
        pow(2, 3819663927398918131020nat) % 3819663927398918131021int == 1,
{
    lemma_pow_step(2, 455339423107971, 2729068338269048021800int, 3819663927398918131021int, 1);
    lemma_pow_step(2, 910678846215943, 2465817738172160213469int, 3819663927398918131021int, 1);
    lemma_pow_step(2, 1821357692431887, 1552020036422458656256int, 3819663927398918131021int, 1);
    lemma_pow_step(2, 3642715384863775, 1023032108611457929462int, 3819663927398918131021int, 0);
    lemma_pow_step(2, 7285430769727550, 558775909273685685006int, 3819663927398918131021int, 1);
    lemma_pow_step(2, 14570861539455101, 1343422243670233507265int, 3819663927398918131021int, 1);
    lemma_pow_step(2, 29141723078910203, 644772788151042808311int, 3819663927398918131021int, 0);
    lemma_pow_step(2, 58283446157820406, 2502212003529044538915int, 3819663927398918131021int, 0);
    lemma_pow_step(2, 116566892315640812, 1741323593063841643192int, 3819663927398918131021int, 0);
    lemma_pow_step(2, 233133784631281624, 1232231162031235165699int, 3819663927398918131021int, 0);
    lemma_pow_step(2, 466267569262563248, 2609211138349931305552int, 3819663927398918131021int, 0);
    lemma_pow_step(2, 932535138525126496, 609559992589854830223int, 3819663927398918131021int, 1);
    lemma_pow_step(2, 1865070277050252993, 2155749883269961491193int, 3819663927398918131021int, 1);
    lemma_pow_step(2, 3730140554100505987, 3186045504953741631297int, 3819663927398918131021int, 0);
    lemma_pow_step(2, 7460281108201011974, 436817284479363036964int, 3819663927398918131021int, 1);
    lemma_pow_step(2, 14920562216402023949nat, 3606118562499568357202int, 3819663927398918131021int, 0);
    lemma_pow_step(2, 29841124432804047898nat, 1607706687196938043618int, 3819663927398918131021int, 1);
    lemma_pow_step(2, 59682248865608095797nat, 834047721964176649541int, 3819663927398918131021int, 0);
    lemma_pow_step(2, 119364497731216191594nat, 3018124949302154693611int, 3819663927398918131021int, 0);
    lemma_pow_step(2, 238728995462432383188nat, 3767971325092512384931int, 3819663927398918131021int, 1);
    lemma_pow_step(2, 477457990924864766377nat, 1869945867387830944514int, 3819663927398918131021int, 1);
    lemma_pow_step(2, 954915981849729532755nat, 3739891734775661889027int, 3819663927398918131021int, 0);
    lemma_pow_step(2, 1909831963699459065510nat, 3819663927398918131020int, 3819663927398918131021int, 0);
}

/// Square-and-multiply steps 1 to 38 of `2^291799328220` modulo `3819663927398918131021`.
proof fn power_q72_by_13090036741_0()
    ensures
        pow(2, 291799328220) % 3819663927398918131021int == 2236669622039346762846int,
{
    lemma_pow1(2);
    lemma_small_mod(2, 3819663927398918131021nat);
    lemma_pow_step(2, 1, 2, 3819663927398918131021int, 0);
    lemma_pow_step(2, 2, 4, 3819663927398918131021int, 0);
    lemma_pow_step(2, 4, 16, 3819663927398918131021int, 0);
    lemma_pow_step(2, 8, 256, 3819663927398918131021int, 0);
    lemma_pow_step(2, 16, 65536, 3819663927398918131021int, 1);
    lemma_pow_step(2, 33, 8589934592, 3819663927398918131021int, 1);
    lemma_pow_step(2, 67, 147573952589676412928int, 3819663927398918131021int, 1);
    lemma_pow_step(2, 135, 2489253286043168823058int, 3819663927398918131021int, 1);
    lemma_pow_step(2, 271, 2791171529641277427427int, 3819663927398918131021int, 1);
    lemma_pow_step(2, 543, 894493177636004213251int, 3819663927398918131021int, 1);
    lemma_pow_step(2, 1087, 3002760196261524837311int, 3819663927398918131021int, 0);
    lemma_pow_step(2, 2174, 56183154614179980215int, 3819663927398918131021int, 0);
    lemma_pow_step(2, 4348, 1965304622748597494755int, 3819663927398918131021int, 0);
    lemma_pow_step(2, 8696, 2509663312450965408882int, 3819663927398918131021int, 0);
    lemma_pow_step(2, 17392, 2841262828722081855726int, 3819663927398918131021int, 1);
    lemma_pow_step(2, 34785, 3355443618381837814454int, 3819663927398918131021int, 0);
    lemma_pow_step(2, 69570, 3085410773256657382806int, 3819663927398918131021int, 0);
    lemma_pow_step(2, 139140, 3233605476318946545877int, 3819663927398918131021int, 1);
    lemma_pow_step(2, 278281, 1831726827908699274953int, 3819663927398918131021int, 1);
    lemma_pow_step(2, 556563, 3265454172051374951935int, 3819663927398918131021int, 0);
    lemma_pow_step(2, 1113126, 214133059853766160830int, 3819663927398918131021int, 0);
    lemma_pow_step(2, 2226252, 2892425687466036700313int, 3819663927398918131021int, 0);
    lemma_pow_step(2, 4452504, 3728507016147203005365int, 3819663927398918131021int, 0);
    lemma_pow_step(2, 8905008, 1851212652064737853348int, 3819663927398918131021int, 1);
    lemma_pow_step(2, 17810017, 1820791194688524961267int, 3819663927398918131021int, 1);
    lemma_pow_step(2, 35620035, 2231257852290216292454int, 3819663927398918131021int, 0);
    lemma_pow_step(2, 71240070, 1429562407139500999374int, 3819663927398918131021int, 0);
    lemma_pow_step(2, 142480140, 1746911177469539026864int, 3819663927398918131021int, 1);
    lemma_pow_step(2, 284960281, 3083731181873471166569int, 3819663927398918131021int, 0);
    lemma_pow_step(2, 569920562, 2151823802938640888911int, 3819663927398918131021int, 1);
    lemma_pow_step(2, 1139841125, 3241232100062534502306int, 3819663927398918131021int, 1);
    lemma_pow_step(2, 2279682251, 103125157320200892484int, 3819663927398918131021int, 1);
    lemma_pow_step(2, 4559364503, 8673731379746844126, 3819663927398918131021int, 0);
    lemma_pow_step(2, 9118729006, 482764594278082645249int, 3819663927398918131021int, 1);
    lemma_pow_step(2, 18237458013, 1300395484806096192865int, 3819663927398918131021int, 1);
    lemma_pow_step(2, 36474916027, 2949187678681250482175int, 3819663927398918131021int, 1);
    lemma_pow_step(2, 72949832055, 1519592529722190473305int, 3819663927398918131021int, 0);
    lemma_pow_step(2, 145899664110, 1579597641135384243340int, 3819663927398918131021int, 0);
}

/// Square-and-multiply steps 1 to 48 of `2^5058775598926860` modulo `3819663927398918131021`.
proof fn power_q72_by_755057_0()
    ensures
        pow(2, 316173474932928) % 3819663927398918131021int == 3178514603065578133388int,
{
    lemma_pow1(2);
    lemma_small_mod(2, 3819663927398918131021nat);
    lemma_pow_step(2, 1, 2, 3819663927398918131021int, 0);
    lemma_pow_step(2, 2, 4, 3819663927398918131021int, 0);
    lemma_pow_step(2, 4, 16, 3819663927398918131021int, 0);
    lemma_pow_step(2, 8, 256, 3819663927398918131021int, 1);
    lemma_pow_step(2, 17, 131072, 3819663927398918131021int, 1);
    lemma_pow_step(2, 35, 34359738368, 3819663927398918131021int, 1);
    lemma_pow_step(2, 71, 2361183241434822606848int, 3819663927398918131021int, 1);
    lemma_pow_step(2, 143, 3184629278830808953362int, 3819663927398918131021int, 1);
    lemma_pow_step(2, 287, 2331547363967107391203int, 3819663927398918131021int, 1);
    lemma_pow_step(2, 575, 3708615127322964022004int, 3819663927398918131021int, 0);
    lemma_pow_step(2, 1150, 402781096718334261647int, 3819663927398918131021int, 0);
    lemma_pow_step(2, 2300, 3335940174212543139661int, 3819663927398918131021int, 0);
    lemma_pow_step(2, 4600, 904927141800413755090int, 3819663927398918131021int, 1);
    lemma_pow_step(2, 9201, 2116241016925733574964int, 3819663927398918131021int, 1);
    lemma_pow_step(2, 18403, 2236481797033033084835int, 3819663927398918131021int, 1);
    lemma_pow_step(2, 36807, 2046555812977780964084int, 3819663927398918131021int, 0);
    lemma_pow_step(2, 73614, 2161599049327926455368int, 3819663927398918131021int, 1);
    lemma_pow_step(2, 147229, 2967511522451922964945int, 3819663927398918131021int, 1);
    lemma_pow_step(2, 294459, 1653909179661569133530int, 3819663927398918131021int, 0);
    lemma_pow_step(2, 588918, 1776522319793890291485int, 3819663927398918131021int, 1);
    lemma_pow_step(2, 1177837, 500925638917791790063int, 3819663927398918131021int, 1);
    lemma_pow_step(2, 2355675, 670665463301765485389int, 3819663927398918131021int, 1);
    lemma_pow_step(2, 4711351, 358865807345020638287int, 3819663927398918131021int, 1);
    lemma_pow_step(2, 9422703, 1283935552844378216094int, 3819663927398918131021int, 1);
    lemma_pow_step(2, 18845407, 3268494216687239277920int, 3819663927398918131021int, 1);
    lemma_pow_step(2, 37690815, 2397058977435925873018int, 3819663927398918131021int, 0);
    lemma_pow_step(2, 75381630, 1137809391474348290011int, 3819663927398918131021int, 1);
    lemma_pow_step(2, 150763261, 2440505022544117102094int, 3819663927398918131021int, 0);
    lemma_pow_step(2, 301526522, 2486035201662767888964int, 3819663927398918131021int, 1);
    lemma_pow_step(2, 603053045, 478809942963041744059int, 3819663927398918131021int, 0);
    lemma_pow_step(2, 1206106090, 2632264296488437440826int, 3819663927398918131021int, 0);
    lemma_pow_step(2, 2412212180, 3417981242696318533974int, 3819663927398918131021int, 1);
    lemma_pow_step(2, 4824424361, 3261236611161084783524int, 3819663927398918131021int, 0);
    lemma_pow_step(2, 9648848722, 1081348937561776395866int, 3819663927398918131021int, 0);
    lemma_pow_step(2, 19297697444, 230437811481913166391int, 3819663927398918131021int, 1);
    lemma_pow_step(2, 38595394889, 666778518220461329491int, 3819663927398918131021int, 0);
    lemma_pow_step(2, 77190789778, 3203180394753499149034int, 3819663927398918131021int, 1);
    lemma_pow_step(2, 154381579557, 1461426977092585587612int, 3819663927398918131021int, 0);
    lemma_pow_step(2, 308763159114, 1603629104913572546854int, 3819663927398918131021int, 0);
    lemma_pow_step(2, 617526318228, 2548527458412358984320int, 3819663927398918131021int, 0);
    lemma_pow_step(2, 1235052636456, 2522215893079730337437int, 3819663927398918131021int, 1);
    lemma_pow_step(2, 2470105272913, 3613541844169369684227int, 3819663927398918131021int, 1);
    lemma_pow_step(2, 4940210545827, 2870447223908653716604int, 3819663927398918131021int, 0);
    lemma_pow_step(2, 9880421091654, 147593296891494492270int, 3819663927398918131021int, 0);
    lemma_pow_step(2, 19760842183308, 1336251415205877077732int, 3819663927398918131021int, 0);
    lemma_pow_step(2, 39521684366616, 2433073638498792583495int, 3819663927398918131021int, 0);
    lemma_pow_step(2, 79043368733232, 3348091499617955631764int, 3819663927398918131021int, 0);
    lemma_pow_step(2, 158086737466464, 1253880219696765540415int, 3819663927398918131021int, 0);
}

/// Square-and-multiply steps 49 to 52 of `2^5058775598926860` modulo `3819663927398918131021`.
proof fn power_q72_by_755057_1()
    requires
        pow(2, 316173474932928) % 3819663927398918131021int == 3178514603065578133388int,
    ensures
        pow(2, 5058775598926860) % 3819663927398918131021int == 3072291452636436773356int,
{
    lemma_pow_step(2, 316173474932928, 3178514603065578133388int, 3819663927398918131021int, 1);
    lemma_pow_step(2, 632346949865857, 1522321185411313075656int, 3819663927398918131021int, 1);
    lemma_pow_step(2, 1264693899731715, 1725196981386531874926int, 3819663927398918131021int, 0);
    lemma_pow_step(2, 2529387799463430, 1808292715505535501833int, 3819663927398918131021int, 0);
}

/// Square-and-multiply steps 1 to 33 of `2^13090036740` modulo `13090036741`.
proof fn power_13090036741_full_0()
    ensures
        pow(2, 13090036740) % 13090036741 == 1,
{
    lemma_pow1(2);
    lemma_small_mod(2, 13090036741);
    lemma_pow_step(2, 1, 2, 13090036741, 1);
    lemma_pow_step(2, 3, 8, 13090036741, 0);
    lemma_pow_step(2, 6, 64, 13090036741, 0);
    lemma_pow_step(2, 12, 4096, 13090036741, 0);
    lemma_pow_step(2, 24, 16777216, 13090036741, 0);
    lemma_pow_step(2, 48, 13006705674, 13090036741, 1);
    lemma_pow_step(2, 97, 10263654949, 13090036741, 1);
    lemma_pow_step(2, 195, 7595503575, 13090036741, 0);
    lemma_pow_step(2, 390, 4453032615, 13090036741, 0);
    lemma_pow_step(2, 780, 4969036127, 13090036741, 0);
    lemma_pow_step(2, 1560, 3141260670, 13090036741, 0);
    lemma_pow_step(2, 3120, 7564455526, 13090036741, 1);
    lemma_pow_step(2, 6241, 1745480121, 13090036741, 1);
    lemma_pow_step(2, 12483, 9256058377, 13090036741, 1);
    lemma_pow_step(2, 24967, 9742576818, 13090036741, 0);
    lemma_pow_step(2, 49934, 96177532, 13090036741, 1);
    lemma_pow_step(2, 99869, 7856946302, 13090036741, 0);
    lemma_pow_step(2, 199738, 11864973096, 13090036741, 0);
    lemma_pow_step(2, 399476, 1401962677, 13090036741, 0);
    lemma_pow_step(2, 798952, 1424727432, 13090036741, 0);
    lemma_pow_step(2, 1597904, 3393092798, 13090036741, 1);
    lemma_pow_step(2, 3195809, 7702678844, 13090036741, 1);
    lemma_pow_step(2, 6391619, 3725131768, 13090036741, 1);
    lemma_pow_step(2, 12783239, 1920392651, 13090036741, 0);
    lemma_pow_step(2, 25566478, 7157273218, 13090036741, 0);
    lemma_pow_step(2, 51132956, 3182237990, 13090036741, 0);
    lemma_pow_step(2, 102265912, 9479036116, 13090036741, 0);
    lemma_pow_step(2, 204531824, 7056237078, 13090036741, 0);
    lemma_pow_step(2, 409063648, 3495848480, 13090036741, 0);
    lemma_pow_step(2, 818127296, 634822231, 13090036741, 0);
    lemma_pow_step(2, 1636254592, 8307048064, 13090036741, 1);
    lemma_pow_step(2, 3272509185, 3524059386, 13090036741, 0);
    lemma_pow_step(2, 6545018370, 13090036740, 13090036741, 0);
}

/// Square-and-multiply steps 1 to 14 of `2^31020` modulo `13090036741`.
proof fn power_13090036741_by_421987_0()
    ensures
        pow(2, 31020) % 13090036741 == 9676538530,
{
    lemma_pow1(2);
    lemma_small_mod(2, 13090036741);
    lemma_pow_step(2, 1, 2, 13090036741, 1);
    lemma_pow_step(2, 3, 8, 13090036741, 1);
    lemma_pow_step(2, 7, 128, 13090036741, 1);
    lemma_pow_step(2, 15, 32768, 13090036741, 0);
    lemma_pow_step(2, 30, 1073741824, 13090036741, 0);
    lemma_pow_step(2, 60, 12106941575, 13090036741, 1);
    lemma_pow_step(2, 121, 10441899061, 13090036741, 0);
    lemma_pow_step(2, 242, 8288692745, 13090036741, 0);
    lemma_pow_step(2, 484, 2046581585, 13090036741, 1);
    lemma_pow_step(2, 969, 3093728506, 13090036741, 0);
    lemma_pow_step(2, 1938, 8510338595, 13090036741, 1);
    lemma_pow_step(2, 3877, 182549286, 13090036741, 1);
    lemma_pow_step(2, 7755, 11789874970, 13090036741, 0);
    lemma_pow_step(2, 15510, 2802104822, 13090036741, 0);
}

/// Square-and-multiply steps 1 to 19 of `2^755056` modulo `755057`.
proof fn power_755057_full_0()
    ensures
        pow(2, 755056) % 755057 == 1,
{
    lemma_pow1(2);
    lemma_small_mod(2, 755057);
    lemma_pow_step(2, 1, 2, 755057, 0);
    lemma_pow_step(2, 2, 4, 755057, 1);
    lemma_pow_step(2, 5, 32, 755057, 1);
    lemma_pow_step(2, 11, 2048, 755057, 1);
    lemma_pow_step(2, 23, 82981, 755057, 0);
    lemma_pow_step(2, 46, 481578, 755057, 0);
    lemma_pow_step(2, 92, 102420, 755057, 0);
    lemma_pow_step(2, 184, 604556, 755057, 0);
    lemma_pow_step(2, 368, 351115, 755057, 1);
    lemma_pow_step(2, 737, 378157, 755057, 0);
    lemma_pow_step(2, 1474, 206248, 755057, 1);
    lemma_pow_step(2, 2949, 427533, 755057, 0);
    lemma_pow_step(2, 5898, 267529, 755057, 1);
    lemma_pow_step(2, 11797, 580679, 755057, 1);
    lemma_pow_step(2, 23595, 62760, 755057, 1);
    lemma_pow_step(2, 47191, 125519, 755057, 0);
    lemma_pow_step(2, 94382, 755056, 755057, 0);
    lemma_pow_step(2, 188764, 1, 755057, 0);
    lemma_pow_step(2, 377528, 1, 755057, 0);
}

/// Square-and-multiply steps 1 to 9 of `2^656` modulo `755057`.
proof fn power_755057_by_1151_0()
    ensures
        pow(2, 656) % 755057 == 37876,
{
    lemma_pow1(2);
    lemma_small_mod(2, 755057);
    lemma_pow_step(2, 1, 2, 755057, 0);
    lemma_pow_step(2, 2, 4, 755057, 1);
    lemma_pow_step(2, 5, 32, 755057, 0);
    lemma_pow_step(2, 10, 1024, 755057, 0);
    lemma_pow_step(2, 20, 293519, 755057, 1);
    lemma_pow_step(2, 41, 534151, 755057, 0);
    lemma_pow_step(2, 82, 126926, 755057, 0);
    lemma_pow_step(2, 164, 313324, 755057, 0);
    lemma_pow_step(2, 328, 172893, 755057, 0);
}

/// Square-and-multiply steps 1 to 18 of `2^421986` modulo `421987`.
proof fn power_421987_full_0()
    ensures
        pow(2, 421986) % 421987 == 1,
{
    lemma_pow1(2);
    lemma_small_mod(2, 421987);
    lemma_pow_step(2, 1, 2, 421987, 1);
    lemma_pow_step(2, 3, 8, 421987, 0);
    lemma_pow_step(2, 6, 64, 421987, 0);
    lemma_pow_step(2, 12, 4096, 421987, 1);
    lemma_pow_step(2, 25, 217459, 421987, 1);
    lemma_pow_step(2, 51, 262948, 421987, 1);
    lemma_pow_step(2, 103, 271443, 421987, 0);
    lemma_pow_step(2, 206, 262114, 421987, 0);
    lemma_pow_step(2, 412, 45526, 421987, 0);
    lemma_pow_step(2, 824, 238519, 421987, 0);
    lemma_pow_step(2, 1648, 291982, 421987, 0);
    lemma_pow_step(2, 3296, 298688, 421987, 1);
    lemma_pow_step(2, 6593, 279478, 421987, 1);
    lemma_pow_step(2, 13187, 115451, 421987, 0);
    lemma_pow_step(2, 26374, 52019, 421987, 0);
    lemma_pow_step(2, 52748, 195717, 421987, 0);
    lemma_pow_step(2, 105496, 118138, 421987, 1);
    lemma_pow_step(2, 210993, 421986, 421987, 0);
}

/// Square-and-multiply steps 1 to 8 of `2^318` modulo `421987`.
proof fn power_421987_by_1327_0()
    ensures
        pow(2, 318) % 421987 == 172201,
{
    lemma_pow1(2);
    lemma_small_mod(2, 421987);
    lemma_pow_step(2, 1, 2, 421987, 0);
    lemma_pow_step(2, 2, 4, 421987, 0);
    lemma_pow_step(2, 4, 16, 421987, 1);
    lemma_pow_step(2, 9, 512, 421987, 1);
    lemma_pow_step(2, 19, 102301, 421987, 1);
    lemma_pow_step(2, 39, 12015, 421987, 1);
    lemma_pow_step(2, 79, 81342, 421987, 1);
    lemma_pow_step(2, 159, 373582, 421987, 0);
}

} // verus!
