//! The offset of the chain of gates, doubled out.
//!
//! The proof follows the doublings of the offset point, with the slope of every
//! tangent and the coordinates of every point.
use vstd::arithmetic::power2::{lemma2_to64, lemma_pow2_unfold, pow2};
use vstd::prelude::*;

use crate::chords::opposite;
use crate::ecgfp5::{infinity, on_curve, PointEw};
use crate::gates::{offset_end, offset_point};
use crate::generator_order::{
    lemma_of_ops, lemma_product_of_coefficients, lemma_same_class, lemma_tangent, point, product0,
    product1, product2, product3, product4, z,
};
use crate::multiples::{lemma_times_add, lemma_times_proper, times};
use crate::proper::{proper, roots};
use crate::quintic::{lemma_of_equal, lemma_of_view, lemma_zero_one, QuinticExtension};
use crate::quintic_power::lemma_units_canonical;
use crate::quintic_ring::Z5;

verus! {

/// The offset point.
pub open spec fn start() -> PointEw {
    offset_point().point()
}

/// Whether the offset doubled `j` times is the point with the given coordinates.
#[verifier::opaque]
pub open spec fn doubled(j: nat, x: Z5, y: Z5) -> bool {
    times(start(), pow2(j)) == point(x, y)
}

/// The offset belongs to the group.
pub proof fn lemma_offset_proper()
    ensures
        proper(start()),
{
    let g = start();
    let x = z(2626390539619063455, 3069873143820007175, 16481805966921623903, 2169403494164322467, 15849876939764656634);
    let y = z(8052493994140007067, 12476750341447220703, 7297584762312352412, 4456043296886321460, 17416054515469523789);
    let u = z(5919313839564149295, 11492879862702544448, 8542926436238850217, 14243736995255154738, 4008968789658469788);
    let a = z(6148914689804861439, 263, 0, 0, 0);
    let b = z(15713893096167979237, 6148914689804861265, 0, 0, 0);
    let t = z(6148914689804861441, 0, 0, 0, 0);
    let c = z(14410448417343276840, 16688652607358237116, 14056734118439698834, 14218706122089759664, 2688875997747975519);
    let d = z(13605316427815080969, 16415846539323782102, 4488729930215652232, 9135404375350397312, 8315457009369459893);
    lemma_of_view(x);
    lemma_of_view(y);
    lemma_of_view(u);
    lemma_product_of_coefficients(
        2626390539619063455, 3069873143820007175, 16481805966921623903, 2169403494164322467, 15849876939764656634,
        2626390539619063455, 3069873143820007175, 16481805966921623903, 2169403494164322467, 15849876939764656634,
        11851860178676944269, 3141601912538485107, 4268851168953305467, 11479058849113721242, 2273694237565942913,
        27830099412929891622, 86608882198386661182, 16388155492779109836, 46959252125132915326, 19961541575725683766,
    );
    lemma_product_of_coefficients(
        11851860178676944269, 3141601912538485107, 4268851168953305467, 11479058849113721242, 2273694237565942913,
        2626390539619063455, 3069873143820007175, 16481805966921623903, 2169403494164322467, 15849876939764656634,
        14410448417343276840, 16688652607358237116, 14056734118439698834, 14218706122089759664, 2688875997747975519,
        43195640598336577359, 23567788936921761197, 42111428317819386080, 12406383689519831221, 16601041708738124422,
    );
    lemma_product_of_coefficients(
        6148914689804861439, 263, 0, 0, 0,
        2626390539619063455, 3069873143820007175, 16481805966921623903, 2169403494164322467, 15849876939764656634,
        13605316427815080969, 16415846539323782102, 4488729930215652232, 9135404375350397312, 8315457009369459893,
        875463513206355162, 1023291047940002428, 5493935322307208010, 723134498054774390, 5283292313254885574,
    );
    lemma_of_ops(c, d);
    lemma_of_ops(c + d, b);
    lemma_product_of_coefficients(
        8052493994140007067, 12476750341447220703, 7297584762312352412, 4456043296886321460, 17416054515469523789,
        8052493994140007067, 12476750341447220703, 7297584762312352412, 4456043296886321460, 17416054515469523789,
        43729657941326337046, 39253413836486880483, 18545464048655351066, 23354110497440156976, 11004333007117435412,
        84769830402484871765, 55461152408971989087, 40052432512440375271, 63090899423737969419, 24119918936132354258,
    );
    assert((c + d) + b == z(43729657941326337046, 39253413836486880483, 18545464048655351066, 23354110497440156976, 11004333007117435412));
    assert(on_curve(g));
    lemma_of_ops(x, t);
    lemma_product_of_coefficients(
        5919313839564149295, 11492879862702544448, 8542926436238850217, 14243736995255154738, 4008968789658469788,
        5919313839564149295, 11492879862702544448, 8542926436238850217, 14243736995255154738, 4008968789658469788,
        -3522524150185797986, 3069873143820007175, 16481805966921623903, 2169403494164322467, 15849876939764656634,
        56464438191076138511, 51510554143391525293, 31216294491480525695, 22400020522642249577, 24277747631374378463,
    );
    lemma_units_canonical();
    crate::quintic_field::lemma_shape(QuinticExtension::of(u));
    assert(QuinticExtension::of(u).c1@ == 11492879862702544448);
    assert(roots(QuinticExtension::of(u), g));
}

/// One doubling more: `l` is the slope of the tangent at `(x, y)`, and `(u, v)` twice
/// that point.
proof fn lemma_next(
    j: nat,
    x0: int, x1: int, x2: int, x3: int, x4: int,
    y0: int, y1: int, y2: int, y3: int, y4: int,
    l0: int, l1: int, l2: int, l3: int, l4: int,
    u0: int, u1: int, u2: int, u3: int, u4: int,
    v0: int, v1: int, v2: int, v3: int, v4: int,
    q0: int, q1: int, q2: int, q3: int, q4: int,
    r0: int, r1: int, r2: int, r3: int, r4: int,
    w0: int, w1: int, w2: int, w3: int, w4: int,
)
    requires
        doubled(j, z(x0, x1, x2, x3, x4), z(y0, y1, y2, y3, y4)),
        product0(l0, l1, l2, l3, l4, y0 + y0, y1 + y1, y2 + y2, y3 + y3, y4 + y4) == 3 * product0(x0, x1, x2, x3, x4, x0, x1, x2, x3, x4) + 6148914689804861439 + q0 * 0xffff_ffff_0000_0001,
        product1(l0, l1, l2, l3, l4, y0 + y0, y1 + y1, y2 + y2, y3 + y3, y4 + y4) == 3 * product1(x0, x1, x2, x3, x4, x0, x1, x2, x3, x4) + 263 + q1 * 0xffff_ffff_0000_0001,
        product2(l0, l1, l2, l3, l4, y0 + y0, y1 + y1, y2 + y2, y3 + y3, y4 + y4) == 3 * product2(x0, x1, x2, x3, x4, x0, x1, x2, x3, x4) + q2 * 0xffff_ffff_0000_0001,
        product3(l0, l1, l2, l3, l4, y0 + y0, y1 + y1, y2 + y2, y3 + y3, y4 + y4) == 3 * product3(x0, x1, x2, x3, x4, x0, x1, x2, x3, x4) + q3 * 0xffff_ffff_0000_0001,
        product4(l0, l1, l2, l3, l4, y0 + y0, y1 + y1, y2 + y2, y3 + y3, y4 + y4) == 3 * product4(x0, x1, x2, x3, x4, x0, x1, x2, x3, x4) + q4 * 0xffff_ffff_0000_0001,
        product0(l0, l1, l2, l3, l4, l0, l1, l2, l3, l4) - x0 - x0 == u0 + r0 * 0xffff_ffff_0000_0001,
        product1(l0, l1, l2, l3, l4, l0, l1, l2, l3, l4) - x1 - x1 == u1 + r1 * 0xffff_ffff_0000_0001,
        product2(l0, l1, l2, l3, l4, l0, l1, l2, l3, l4) - x2 - x2 == u2 + r2 * 0xffff_ffff_0000_0001,
        product3(l0, l1, l2, l3, l4, l0, l1, l2, l3, l4) - x3 - x3 == u3 + r3 * 0xffff_ffff_0000_0001,
        product4(l0, l1, l2, l3, l4, l0, l1, l2, l3, l4) - x4 - x4 == u4 + r4 * 0xffff_ffff_0000_0001,
        product0(l0, l1, l2, l3, l4, x0 - u0, x1 - u1, x2 - u2, x3 - u3, x4 - u4) - y0 == v0 + w0 * 0xffff_ffff_0000_0001,
        product1(l0, l1, l2, l3, l4, x0 - u0, x1 - u1, x2 - u2, x3 - u3, x4 - u4) - y1 == v1 + w1 * 0xffff_ffff_0000_0001,
        product2(l0, l1, l2, l3, l4, x0 - u0, x1 - u1, x2 - u2, x3 - u3, x4 - u4) - y2 == v2 + w2 * 0xffff_ffff_0000_0001,
        product3(l0, l1, l2, l3, l4, x0 - u0, x1 - u1, x2 - u2, x3 - u3, x4 - u4) - y3 == v3 + w3 * 0xffff_ffff_0000_0001,
        product4(l0, l1, l2, l3, l4, x0 - u0, x1 - u1, x2 - u2, x3 - u3, x4 - u4) - y4 == v4 + w4 * 0xffff_ffff_0000_0001,
    ensures
        doubled(j + 1, z(u0, u1, u2, u3, u4), z(v0, v1, v2, v3, v4)),
{
    reveal(doubled);
    let o = start();
    lemma_offset_proper();
    lemma_times_proper(o, pow2(j));
    lemma_times_add(o, pow2(j), pow2(j));
    lemma_pow2_unfold(j + 1);
    lemma_tangent(
        x0, x1, x2, x3, x4,
        y0, y1, y2, y3, y4,
        l0, l1, l2, l3, l4,
        u0, u1, u2, u3, u4,
        v0, v1, v2, v3, v4,
        q0, q1, q2, q3, q4,
        r0, r1, r2, r3, r4,
        w0, w1, w2, w3, w4,
    );
}

proof fn lemma_doublings_1()
    ensures
        doubled(
            12,
            z(9227749291171394346, 17303377622714372708, 15927788275677123920, 10358701603614927190, 6928181292406665419),
            z(16146437750845729816, 1212680594358375495, 14052790710497994296, 1969713867203298778, 17731326509850184950),
        ),
{
    assert(doubled(
            0,
            z(2626390539619063455, 3069873143820007175, 16481805966921623903, 2169403494164322467, 15849876939764656634),
            z(8052493994140007067, 12476750341447220703, 7297584762312352412, 4456043296886321460, 17416054515469523789),
        )) by {
        reveal(doubled);
        lemma2_to64();
        lemma_once();
    }
    lemma_next(
        0,
        2626390539619063455, 3069873143820007175, 16481805966921623903, 2169403494164322467, 15849876939764656634,
        8052493994140007067, 12476750341447220703, 7297584762312352412, 4456043296886321460, 17416054515469523789,
        9807036821785419878, 16088917497808230902, 14437210413664251166, 14562994140261650178, 1274617398499479387,
        5948298497167270001, 15488083211069840053, 7462878240499130449, 5465845052061152523, 14272165321414720409,
        7229037630209827809, 10702348517645256990, 8760795746058875829, 9846744510637391346, 3236820900223784510,
        76876138016988638430, -126597880527796362806, 77306588318856884711, -83945743983893048350, -1358062354359490203,
        80269738365851492105, 57583231008813343053, 35420844257741959041, 40932522277222760442, 38057616232744171603,
        13408385539528231856, -11732672850441654149, -5582674906539328047, -5900870148519793337, -5010956123585219123,
    );
    lemma_next(
        1,
        5948298497167270001, 15488083211069840053, 7462878240499130449, 5465845052061152523, 14272165321414720409,
        7229037630209827809, 10702348517645256990, 8760795746058875829, 9846744510637391346, 3236820900223784510,
        10229516666057984584, 6585297947951133353, 13005850982417766352, 14864441067918360774, 17757805670197223528,
        1164943004740104550, 6494467951550829605, 11394395084895053958, 11002214393170970880, 6198152590137047423,
        6293376713015748154, 3978302408397307263, 10305750348797825360, 2653356225991763726, 18032604437344362964,
        -100474399467052022394, -19540690512934655390, -29496087586488088611, -84938076975331473075, -10065817217370727175,
        106589752861552443176, 118357792178178113517, 102631251129313710601, 77055651889365574570, 39477603292610629691,
        16058464461562137297, -965051942975039372, 7932319863812059855, 29039118155321187917, 11580842907406581321,
    );
    lemma_next(
        2,
        1164943004740104550, 6494467951550829605, 11394395084895053958, 11002214393170970880, 6198152590137047423,
        6293376713015748154, 3978302408397307263, 10305750348797825360, 2653356225991763726, 18032604437344362964,
        15159992668983896198, 10325248290224963181, 11352661373179375611, 9939991569885657846, 12481438721342885709,
        5737869467147516893, 2123689806894516650, 8179100636512528112, 13189608178717602698, 5232108615304704827,
        13618816947777529258, 11250700201708278505, 4887770342712333055, 2090959714577656560, 1172002214752257495,
        -31654396511437559603, 154668083995656841, 20492969960158091987, 53802868898273730725, 11394169699011690412,
        91080639725628414301, 79128162239743326798, 64792770375091589413, 54382357526796442423, 38629349359655201784,
        7895213082547192621, 5806572041365282265, -603886155865642903, 2188777019415858495, 809399271625138340,
    );
    lemma_next(
        3,
        5737869467147516893, 2123689806894516650, 8179100636512528112, 13189608178717602698, 5232108615304704827,
        13618816947777529258, 11250700201708278505, 4887770342712333055, 2090959714577656560, 1172002214752257495,
        190940162013509980, 15827388768435011217, 16196880384660903968, 12489983421265627460, 11558137459612469168,
        12680675298057424069, 4463911362540382600, 12614806049987087142, 3274099595949711217, 7613161564083832958,
        659234849618438885, 919795565922091618, 10180572714719033738, 8628253548513963736, 15334849637805496374,
        -41979517546095210484, -73950416932310963979, -27391239827940833766, 7414395746132355425, 14742130535226350910,
        125303406628573521841, 86588605520205619084, 60870209530692103323, 49778429485131991451, 35893619146070239892,
        6508803823634086320, -450056874284368399, 5651845731328424573, -14934548577610477810, -1346462657633144880,
    );
    lemma_next(
        4,
        12680675298057424069, 4463911362540382600, 12614806049987087142, 3274099595949711217, 7613161564083832958,
        659234849618438885, 919795565922091618, 10180572714719033738, 8628253548513963736, 15334849637805496374,
        17954765984516763203, 17052420786309556769, 798814767366449875, 2434533995226959346, 9398396032537271378,
        11238289980476495274, 4101644873741533966, 1094946619598022873, 11631903125453050289, 15733438822302830762,
        252128304508584149, 4527026995295145692, 15334104469209772819, 6549959511562180996, 16782848910088823296,
        -161291823044809396, -72406940246886548174, -19498591106686512362, 22651345725609384938, -14434232418615402356,
        70236486726591333509, 36601081437384688376, 24760706021160088742, 20581191452692404555, 22831102466980467603,
        -17086583558912603219, 14929643477591249117, -4379689763015439299, -9691289705508780643, -14348232250618195081,
    );
    lemma_next(
        5,
        11238289980476495274, 4101644873741533966, 1094946619598022873, 11631903125453050289, 15733438822302830762,
        252128304508584149, 4527026995295145692, 15334104469209772819, 6549959511562180996, 16782848910088823296,
        8877579343394017376, 16125181244196838882, 15992169149958541569, 865323662962747133, 14611801534397465343,
        4834961968068726952, 18356204716382218082, 19440579190902815, 10371713512419909035, 325978247690944638,
        15679966506205421528, 10633957219626428531, 4396817777265190762, 1335122203687124879, 10543301963248578910,
        52230409056667463093, 69001893997272815950, -126351933741123193690, -44003988771156357934, -18208272504380087515,
        85410710512014184614, 91647496758753634839, 33600975575236844165, 63514267821261556346, 29441040045910607907,
        13042269959215764255, 41542379567156030741, -1228841458430001025, 26102278460703789443, 13852350492963859746,
    );
    lemma_next(
        6,
        4834961968068726952, 18356204716382218082, 19440579190902815, 10371713512419909035, 325978247690944638,
        15679966506205421528, 10633957219626428531, 4396817777265190762, 1335122203687124879, 10543301963248578910,
        8973853163080651293, 3339217378149913177, 13638487095982394872, 4804475926612518853, 7783167022509534579,
        17389998543190763059, 17037410148682360646, 3381686831684299781, 11165325817676143778, 16472324108086967284,
        17535884804667455562, 9103424117583995153, 15609610973490532715, 17413747807661148119, 12126844378212726453,
        56583786529148120037, -5346204792967901944, -6958395046841103268, 36995125531914758158, -26423751921881096447,
        34131923512534225080, 41529496738390574427, 26036798883192952792, 19463930034312174101, 19395547742328059480,
        -17594153280289223177, -42320203482860633290, -24299947264287967512, -23727339521695300660, -15438104513971710469,
    );
    lemma_next(
        7,
        17389998543190763059, 17037410148682360646, 3381686831684299781, 11165325817676143778, 16472324108086967284,
        17535884804667455562, 9103424117583995153, 15609610973490532715, 17413747807661148119, 12126844378212726453,
        8753060319728343288, 69896868824172863, 4581821789384001384, 14895492904883209348, 9607052916118613136,
        11962696139528292258, 3981331458182494007, 11775097858928346396, 10583107592966184468, 17058285468663207381,
        16765250017595737742, 18106805877147557697, 8043250833227481666, 15119326435656628067, 6542902071993442853,
        -212931135295079261508, -51556659298379926091, -109037948547650099536, -126897067439007278254, -104543837435716395393,
        26570328311190074008, 50467311328768434045, 50893834615270791003, 29180716171047604376, 10368096080071451771,
        3068553903535862863, -5924344413681643899, -3095010553140550088, 6954311421502141657, 11008540839748759316,
    );
    lemma_next(
        8,
        11962696139528292258, 3981331458182494007, 11775097858928346396, 10583107592966184468, 17058285468663207381,
        16765250017595737742, 18106805877147557697, 8043250833227481666, 15119326435656628067, 6542902071993442853,
        15100170805683283225, 17057416789199992617, 9548129427003569224, 2718107811316011251, 2245407368387423508,
        166621103003093238, 16969872046165790166, 769226576331544053, 4679424363953076190, 13094037275824950627,
        9349338021874087980, 16765734990657339749, 5364344374252069024, 17899398254973270031, 10542066001692419200,
        -80104080928016262635, -165924652764368523743, -143715620372790147731, -130304876038580350227, -46210710104738927630,
        33259925068120637311, 36100722315843791225, 33389729455420393052, 22927959101292274992, 13645044340660930801,
        29942486405244951091, 13059940901892526713, 7012853869414546976, 11472439328294139223, 13922816564737238686,
    );
    lemma_next(
        9,
        166621103003093238, 16969872046165790166, 769226576331544053, 4679424363953076190, 13094037275824950627,
        9349338021874087980, 16765734990657339749, 5364344374252069024, 17899398254973270031, 10542066001692419200,
        15094338426037927011, 18246483442281138796, 11229928024292186112, 13265788824227100572, 15594933027638760374,
        15078571483671949377, 6273382408054480278, 7079486896104205500, 9394113396128160971, 14468896618259217974,
        5806161185247179875, 6726328915298986315, 862690234101141861, 257299372438623472, 11659192036623554709,
        31095941609365723329, 167451678331185594277, 82946148450036623968, 39088797255197331677, 72481115745457522081,
        153360305081333962956, 115443706291121556342, 103716154387092685402, 83477919253609932365, 58601651615279157608,
        -11377647397671886312, -34684137295665873222, -18584719999658514736, -17798570039932333652, -14544374365377292796,
    );
    lemma_next(
        10,
        15078571483671949377, 6273382408054480278, 7079486896104205500, 9394113396128160971, 14468896618259217974,
        5806161185247179875, 6726328915298986315, 862690234101141861, 257299372438623472, 11659192036623554709,
        17277885187955646889, 14011190932335451443, 13659867078130735623, 6299823829216225674, 15460780347023395004,
        205689825738282708, 12501024949855940717, 11433648089475641685, 3673875815510096343, 15848012401136684213,
        9389277789975878118, 4146825161410867023, 16942510651361881288, 14974541205484451453, 745517210230207155,
        -89694724577084266270, -95687448191792751594, -128134622260141361862, -88306608078719308858, -60445379096487329276,
        114632561593399733143, 101393723311669871041, 67911272115903914154, 71426396929116425153, 48647458312531997764,
        3375763617019465391, -2687522807203098297, 15174908398244057894, -949339852537039807, 10167386638793060724,
    );
    lemma_next(
        11,
        205689825738282708, 12501024949855940717, 11433648089475641685, 3673875815510096343, 15848012401136684213,
        9389277789975878118, 4146825161410867023, 16942510651361881288, 14974541205484451453, 745517210230207155,
        15520280803501972760, 15362399382336594950, 657785047435985094, 16878526366617460479, 6137480162726621078,
        9227749291171394346, 17303377622714372708, 15927788275677123920, 10358701603614927190, 6928181292406665419,
        16146437750845729816, 1212680594358375495, 14052790710497994296, 1969713867203298778, 17731326509850184950,
        -110294060398854502251, -45426669798884419844, -12921530134875327371, -96891174615640613547, 3981778646078688881,
        47336933569404742114, 73494504632518870013, 47594906357174753222, 35623372693962585536, 38463852247318569731,
        -3150302914471670917, -33435193741391510919, 9709914269055298094, -8890093235561191041, -5618455216982546498,
    );
}

proof fn lemma_doublings_2()
    ensures
        doubled(
            24,
            z(12327107731275788094, 9979799134072389013, 5079444211100793169, 7668368201148564717, 6489750065987135000),
            z(13593867009188321497, 17399422771988719137, 9608487191368279908, 4710424260423241395, 8038353037139632474),
        ),
{
    lemma_doublings_1();
    lemma_next(
        12,
        9227749291171394346, 17303377622714372708, 15927788275677123920, 10358701603614927190, 6928181292406665419,
        16146437750845729816, 1212680594358375495, 14052790710497994296, 1969713867203298778, 17731326509850184950,
        6298216242575296060, 841957066332598872, 18129167598158187868, 9755446061340540081, 2482524628577551663,
        15727416339395152298, 3758837614535270288, 7352026665938659642, 17706324547173145532, 635402535528326387,
        43635060814375940, 12065641006413646075, 2480649580122238498, 388646651048050652, 10399906088265746376,
        -218755400967170816653, -87509304117384960791, -67230865765346375292, -107745979593323986693, -74814729623233338870,
        60355220325818433194, 30690970023027051363, 20295209637818455680, 9318748292588882867, 20402787817492492863,
        -3946784383033254638, 14686229872494642650, 4175641790934418568, 10297401182849114522, 16529516679340714958,
    );
    lemma_next(
        13,
        15727416339395152298, 3758837614535270288, 7352026665938659642, 17706324547173145532, 635402535528326387,
        43635060814375940, 12065641006413646075, 2480649580122238498, 388646651048050652, 10399906088265746376,
        14611573936970779571, 7247844533523340853, 6170620415046412053, 13024694536324669639, 11621846014126770380,
        17472082455706711835, 5031579494760163426, 7108552144927427908, 13125950070527030565, 8628813302449341438,
        11535200727375324840, 2039331396225188793, 661322420753308470, 16589669372561803161, 13732367091616965008,
        -88097076506063251135, -125701910050042568849, 8082540726620158610, -49750677074816223071, 1845056407559834838,
        65112887295825377812, 62396747804638200087, 61858188341766394903, 47448583900216591887, 30710319447468483971,
        -8097219914553370805, 447128422899447703, -9165343276617557696, -13041909766758865231, -6448259713651948514,
    );
    lemma_next(
        14,
        17472082455706711835, 5031579494760163426, 7108552144927427908, 13125950070527030565, 8628813302449341438,
        11535200727375324840, 2039331396225188793, 661322420753308470, 16589669372561803161, 13732367091616965008,
        2337662792104585973, 1350753528028979343, 13723345364180049086, 3877496647190708135, 5570293574521611931,
        7499448429505207559, 17551164956366342899, 15923441129086190561, 11225687243446834470, 17059545413287444679,
        7801530536108047909, 14924426518247020259, 15797552518991775076, 3280557942570416898, 6267728886324806477,
        -95522154343051805880, -86882368687919572364, -90027750318378162564, -85489366348855479204, -64019141290151582308,
        20051375025992413798, 27651412432094650638, 10602326892706317778, 8038642731336213509, 12189046899073790337,
        -13247290938245668954, -26459374735617355745, 1790313106133272272, -15259672192094383854, -7107234688431061450,
    );
    lemma_next(
        15,
        7499448429505207559, 17551164956366342899, 15923441129086190561, 11225687243446834470, 17059545413287444679,
        7801530536108047909, 14924426518247020259, 15797552518991775076, 3280557942570416898, 6267728886324806477,
        411442908600100936, 5540966185300144695, 6285522130033563356, 3195274340926784686, 7597644375764762423,
        1423874669884590657, 16517008258676912076, 13651374294402887971, 12053869494018386051, 795282146605478308,
        13544657123498976626, 10082859213297192382, 5982663579405271874, 3910107629262023030, 4087424373865580842,
        -404082043270807271176, -308747016554902187065, -246197935304420915871, -222275689842903969305, -122320138425803980751,
        20234618792091015687, 17440470078522715042, 9840973634709855992, 13306287350996749068, 4400212638843769746,
        16403619544170536051, 20850642409523272177, 9859889221065384896, 22165011830872975065, 3569653009034009786,
    );
    lemma_next(
        16,
        1423874669884590657, 16517008258676912076, 13651374294402887971, 12053869494018386051, 795282146605478308,
        13544657123498976626, 10082859213297192382, 5982663579405271874, 3910107629262023030, 4087424373865580842,
        15643368879784076902, 17160607855971385522, 9780710906180404950, 9571485871951045676, 16353583750464742597,
        2418057032874772890, 4068417514411093781, 17941040727387292693, 8690078015423191532, 3042458618299965866,
        14586599291596973365, 15788051612821138128, 8451032298853771981, 13496182000526008688, 17555228224761466601,
        -43229808777990975752, 10169069591416060492, 16749562662644020722, -14978229205695428582, -40402958703830236639,
        134995922573882856724, 96029820014274506223, 83465221198743073561, 77925164262786070657, 50730775026410654750,
        24666763910703482814, -115176795885668196, 12864081704995612126, -1030000392579213100, 4526998060339616818,
    );
    lemma_next(
        17,
        2418057032874772890, 4068417514411093781, 17941040727387292693, 8690078015423191532, 3042458618299965866,
        14586599291596973365, 15788051612821138128, 8451032298853771981, 13496182000526008688, 17555228224761466601,
        6132397810098938705, 707759355774597830, 12374751113666821532, 8068344711420345564, 6758437933171878445,
        5784006464767612721, 18130681311720391377, 13128044406648062639, 10125009168340464602, 2544160785738248155,
        2635474616413829411, 110903959326421470, 486297236397519030, 16100169767237026057, 7634983426792602466,
        -40216035063130554545, 42965264485385872211, 59537960199080215475, 47062743793430374440, -17694541961579138111,
        36069722260029621872, 38260356644996339209, 25991099377477380875, 13742411103375238289, 13414086359438562987,
        -13090230655109673493, -393906357256274262, -2120842592175567231, -10650369230934912526, -4044504851997866963,
    );
    lemma_next(
        18,
        5784006464767612721, 18130681311720391377, 13128044406648062639, 10125009168340464602, 2544160785738248155,
        2635474616413829411, 110903959326421470, 486297236397519030, 16100169767237026057, 7634983426792602466,
        16880240094799797434, 9724175251814514858, 13272173001662453530, 1049930634641272120, 3828057583412505504,
        375657811699408805, 12830559684900529418, 13766482818594403639, 8767344114884770906, 14347504111184911594,
        15284299668205064793, 3313143603763751940, 8577274216859943059, 8293904383929828091, 8974467436287726071,
        -81374279719164402340, -74672094978755719535, -75840578554086988013, -59680328791022586115, -59770326599919310349,
        32086957267789576381, 34501467663404893852, 30723562134264789527, 18297543901950585818, 17662035975373235428,
        -7596194332863184838, -17941624901201048806, 4930758581320092525, -2321259863452606622, -9120651895236244231,
    );
    lemma_next(
        19,
        375657811699408805, 12830559684900529418, 13766482818594403639, 8767344114884770906, 14347504111184911594,
        15284299668205064793, 3313143603763751940, 8577274216859943059, 8293904383929828091, 8974467436287726071,
        12088913038097720969, 9091162930452468568, 16940645002351468134, 5989828876258133932, 5943089154937778536,
        9238842126127815443, 15442727681527546976, 17269590488548113700, 1023308719031934368, 14182109931159167561,
        18050914964708369689, 9802845521834601228, 8765231700415366886, 1437256949439061501, 6849299028618799425,
        -182037725192567716488, -130204255380903918407, -75100293554181507100, -106271061919620546406, -21470960508186320309,
        58500771355285575844, 50497653358494274828, 38262889725362426650, 30292733098636109988, 29250985837275300887,
        9834222586152621704, -1466425466452564068, -4076705395070290558, -1768456427324816602, -2995884462029856773,
    );
    lemma_next(
        20,
        9238842126127815443, 15442727681527546976, 17269590488548113700, 1023308719031934368, 14182109931159167561,
        18050914964708369689, 9802845521834601228, 8765231700415366886, 1437256949439061501, 6849299028618799425,
        4043797685910014508, 7579672416949001650, 734878621885554968, 12013453811562810536, 10679488086520141154,
        10864614776382247506, 16932558718775769225, 17764102309491705594, 14861563650659902451, 8168588730771184424,
        1341113581636691170, 6089620332142560891, 17882896247535038323, 109336035472629468, 9458997622538079699,
        -151386945917942075574, -229072326518419298979, -59747430264658529228, -132031764416513206381, -57709038309386986882,
        30086881868261314160, 29347146786151446983, 45166781352064372898, 24419194387991755897, 14584010759519174102,
        1848817881580929865, -28171306632969281605, -13070807515843951845, 6089456932345448141, -6298987930916452916,
    );
    lemma_next(
        21,
        10864614776382247506, 16932558718775769225, 17764102309491705594, 14861563650659902451, 8168588730771184424,
        1341113581636691170, 6089620332142560891, 17882896247535038323, 109336035472629468, 9458997622538079699,
        13967443193473993562, 12344990021754496976, 18126786366124083724, 15556301593824273846, 16715284288155863094,
        788769871098717094, 1320563812973838062, 14184016588239518334, 720909879359801524, 7505812755321606701,
        1582019427868470837, 3571809919366731486, 14024523885741950295, 7882190197598953819, 3547429470219611790,
        -247521301372822269431, -144622975276255576660, -141538385588839406451, -93151187630870560388, -99719205778816338094,
        169412233287412431306, 156603125446519307676, 120288789699903959894, 93258500865260786954, 63946500419899657675,
        102143173978679831451, 66024829313204178183, 63176646309763692546, 38742801613036016657, 35778914442783584855,
    );
    lemma_next(
        22,
        788769871098717094, 1320563812973838062, 14184016588239518334, 720909879359801524, 7505812755321606701,
        1582019427868470837, 3571809919366731486, 14024523885741950295, 7882190197598953819, 3547429470219611790,
        6147975835939584748, 15009613435295099186, 15484756593298526785, 5009689485947438805, 16217207757837742732,
        17054310701762778085, 16398891430285541092, 10473364891506679274, 4552710369725205756, 18302595206021697306,
        9094755158708644424, 8438173902415817731, 13623827297622246592, 4110511943820578110, 6759596170462109822,
        80014680222906061533, 5166143042914850143, 55971750165065366010, 19880833787269378121, 8504209096525660606,
        106453727007180945133, 95765709629932353635, 48959716792062254494, 71309755177017026408, 31960691415689807969,
        -78170310680846136179, -38784973623916348518, -43588381012254879589, -43807888289080648390, -21995917336723115046,
    );
    lemma_next(
        23,
        17054310701762778085, 16398891430285541092, 10473364891506679274, 4552710369725205756, 18302595206021697306,
        9094755158708644424, 8438173902415817731, 13623827297622246592, 4110511943820578110, 6759596170462109822,
        10238389272359045784, 4526615293292120052, 13346701213677403380, 3226309944008222623, 14709661600376704446,
        12327107731275788094, 9979799134072389013, 5079444211100793169, 7668368201148564717, 6489750065987135000,
        13593867009188321497, 17399422771988719137, 9608487191368279908, 4710424260423241395, 8038353037139632474,
        -294140485629300044814, -175455108536225215403, -123955260346598804784, -185572471674064557788, -96957764402232032110,
        41345944631269970704, 70574539961663884086, 31362459079889329975, 45320606603779141143, 27568520618005751548,
        22743292945828780446, 41632222248559730501, 6733940053699694924, 33324627714583128132, 14586731759677556859,
    );
}

proof fn lemma_doublings_3()
    ensures
        doubled(
            36,
            z(10189003659002881203, 12934905922590315711, 1957421582614672124, 4908311472096124568, 5125484849146938202),
            z(15977322275926071368, 17385795049160374136, 12285603339339646937, 12081133363396961492, 378040776306981331),
        ),
{
    lemma_doublings_2();
    lemma_next(
        24,
        12327107731275788094, 9979799134072389013, 5079444211100793169, 7668368201148564717, 6489750065987135000,
        13593867009188321497, 17399422771988719137, 9608487191368279908, 4710424260423241395, 8038353037139632474,
        17643705684155059735, 3855245542174071652, 15849913349536809735, 9094897015173026148, 11470394625983633860,
        15004171885488450471, 8897299995285690292, 6943308613543775433, 2407815289761124136, 456179597203249987,
        4978873096830299693, 6657636775497333815, 88244023088595494, 4778111134484622663, 3970662713792636793,
        27788212289939542271, 29318883528367546422, 5242545150299114247, 18538563877512165774, 12811566714167940643,
        78146444110576273846, 79961084211548887154, 65057425487770962503, 45420256462098409630, 39362307327949111830,
        14044884557383970172, 20332479419973347728, 14880813047253713867, 15507462395873459768, 4137934102298667388,
    );
    lemma_next(
        25,
        15004171885488450471, 8897299995285690292, 6943308613543775433, 2407815289761124136, 456179597203249987,
        4978873096830299693, 6657636775497333815, 88244023088595494, 4778111134484622663, 3970662713792636793,
        1121035677200714880, 12853000126753584806, 6493225126677456030, 5701735923899240272, 9391062519909418018,
        4575010080125096481, 13902825093351843711, 12732520354616477048, 16008972355422200692, 1821338450960563648,
        7141929833059070682, 1557101076745635502, 10312676004496535131, 3245284972407933010, 5548116070302891781,
        -9090155719335556182, -24076300557508494813, -13078965818035438726, -11348751679426118049, -646505063473874977,
        51370182931830613785, 26683105588206422017, 27160892763908699738, 24084180363999998128, 11372534314172861182,
        -29595525788167758299, -15932858946111741933, -22206970805978048359, -5483605802514163787, -7835311835582178028,
    );
    lemma_next(
        26,
        4575010080125096481, 13902825093351843711, 12732520354616477048, 16008972355422200692, 1821338450960563648,
        7141929833059070682, 1557101076745635502, 10312676004496535131, 3245284972407933010, 5548116070302891781,
        5302802229008434796, 13808470711527979763, 15839873306912323501, 4594562557344626243, 7990366126612296342,
        10189582639872125209, 921938333404209464, 11957580956332818046, 696188600953932869, 4800387555193331342,
        10901728178177023922, 15695326515236967937, 16472937666491952696, 6197393437753580369, 13928036177094646010,
        -161807508577716939390, -96533293091981257903, -41581948766838350833, -45061742951303609882, -68746881715583797018,
        61083509366004601899, 52539110040121485729, 31384330715472254655, 36738993958400163701, 25073910727165593245,
        48589821162048248471, 4303518835341074326, 22791197668119239570, 10858794849144000374, 12072741112371137261,
    );
    lemma_next(
        27,
        10189582639872125209, 921938333404209464, 11957580956332818046, 696188600953932869, 4800387555193331342,
        10901728178177023922, 15695326515236967937, 16472937666491952696, 6197393437753580369, 13928036177094646010,
        3133299776578168792, 7225489057414017629, 16996289186195708258, 8251835679213190332, 15724662754313417606,
        15946197536253730114, 13771634374906812633, 11796265908262540917, 13330849744850431745, 8812311645144508168,
        12481929674768934302, 5989326907662765235, 16268838444322452180, 7091635608689478850, 15064629913722403038,
        165858995466431115646, 132453108659579573444, 64030848808266595830, 107786512125670540298, 33197945090290442138,
        83105796167784682672, 100458005430213202335, 50809000535231760936, 56330754367468778837, 27466153679555755032,
        -73259897468458697668, -32070014101708488603, -48004436417983280803, -26757071544336561600, -16136984200636956500,
    );
    lemma_next(
        28,
        15946197536253730114, 13771634374906812633, 11796265908262540917, 13330849744850431745, 8812311645144508168,
        12481929674768934302, 5989326907662765235, 16268838444322452180, 7091635608689478850, 15064629913722403038,
        1787133838267398384, 5639624921190482585, 7067323608427762011, 18394107609484717998, 1851658577565690353,
        8387170573957199604, 17641639877129164540, 8657798532053043162, 17788060269466558254, 13884609197493084558,
        13893752740644975387, 4179107825327384160, 12254091633308102525, 1791077086244826093, 5009664350526544828,
        -165924835453658514843, -163919013360346586100, -95878484317755078257, -109994095708856975796, -93879414894787241013,
        45852670212007192282, 60374054705834741504, 14171797331377842721, 8442980009981702777, 14313481053863301271,
        -819661634644324259, -16282221107077562924, -14498780100639422341, 5055018437403458789, -3751874360535893602,
    );
    lemma_next(
        29,
        8387170573957199604, 17641639877129164540, 8657798532053043162, 17788060269466558254, 13884609197493084558,
        13893752740644975387, 4179107825327384160, 12254091633308102525, 1791077086244826093, 5009664350526544828,
        10319058029171457787, 8758949698086057301, 12545590496188847496, 17294623710505735275, 15895070719942318242,
        3463793466658602408, 7409976104020347066, 13386703620479901006, 13660378553066426367, 15475354850684307416,
        8207028241911999017, 13326439982387577027, 3836121437111634102, 8925595472938573825, 18230415150730030354,
        -273067273442519395827, -208060117075644644543, -241215206712475765574, -120985008718063554914, -96384441675221721958,
        121628798047702379605, 123304065405000284295, 107608808727678431275, 72352099538769968979, 42739338197589815302,
        22058234134304288074, 4201038271053171094, 11757239674731112907, 7525919973819528443, 11688916724945280077,
    );
    lemma_next(
        30,
        3463793466658602408, 7409976104020347066, 13386703620479901006, 13660378553066426367, 15475354850684307416,
        8207028241911999017, 13326439982387577027, 3836121437111634102, 8925595472938573825, 18230415150730030354,
        18304886484000983576, 12905141046561854970, 16303579399781344166, 17923692165433364440, 2033806348705086252,
        13787516216447379785, 6336756234083006050, 5399950547769976427, 5329347789660948959, 5248842976033341616,
        7806595688707046674, 15247542841624573358, 4409506277394606189, 8075742173186341307, 4763077681946536701,
        -120962792929109137567, -112360529704358905508, -77339356774414857484, -89851885081328292364, 3653705715125196052,
        121748870024319594455, 88643309623885005050, 53241532252926018813, 59056025554082494859, 43524181712007407972,
        56943951554521773077, 47883861300195251825, 32117033144771089519, 8154451424163133642, 22939578769922320055,
    );
    lemma_next(
        31,
        13787516216447379785, 6336756234083006050, 5399950547769976427, 5329347789660948959, 5248842976033341616,
        7806595688707046674, 15247542841624573358, 4409506277394606189, 8075742173186341307, 4763077681946536701,
        58788462297742112, 17620726188635610367, 14225799784108180368, 15898415249684945569, 17161419273255677411,
        13028638355120155932, 3761661452446058080, 17000179883628394083, 16304886149115588265, 15442260964746817807,
        1074765676476807528, 14496800093942428495, 11476606151365915836, 14013134273385031065, 8630795268790109905,
        81176938560186784720, 33493185743918127020, 52864960848508358266, 23565293543136355846, 23802160670508074931,
        171921369844114713696, 120626170793623598719, 105666280680731820378, 75175871773921507988, 41453082853851143695,
        -77407050383786583603, -83603664515361588496, -53980057072865636978, -36925352189858407142, -16537086604903700795,
    );
    lemma_next(
        32,
        13028638355120155932, 3761661452446058080, 17000179883628394083, 16304886149115588265, 15442260964746817807,
        1074765676476807528, 14496800093942428495, 11476606151365915836, 14013134273385031065, 8630795268790109905,
        4785480885018156107, 12476333262007619371, 5469750766072630715, 3090042322114597229, 1340098166427511050,
        13347410930834074025, 4732419644690920377, 3950307972039119248, 2635699098034293913, 15172064774256919942,
        15335519213381247227, 8474365670595382743, 1502472237104604653, 12162752742794041262, 12841010781375841211,
        -276394332998781652965, -358392759059155846240, -279045375308986222282, -170725491405705314765, -97137925773871259401,
        12177133405008080870, 10410271343833755080, 12623118018141968897, 9294167708397570033, 6497027167491259247,
        18971373294856820094, 9486253340516562299, 5749183347753590549, 12089918179898649820, 12998880849393208833,
    );
    lemma_next(
        33,
        13347410930834074025, 4732419644690920377, 3950307972039119248, 2635699098034293913, 15172064774256919942,
        15335519213381247227, 8474365670595382743, 1502472237104604653, 12162752742794041262, 12841010781375841211,
        17843527965556811175, 7268001667160448942, 9772702710332322771, 1621024608398896981, 5385495902161612472,
        17251679432199776502, 9484366347312051936, 16540400505210149459, 3254648523225332022, 2665571912952126008,
        2504583980785045964, 3573394947710431728, 13757817911460139930, 17550515668363072306, 8322909190701317012,
        5127742281824787210, -4076422077062075990, -5903382597170773209, -70949763244199011058, -26000562813297722980,
        35144033900756113763, 31606761851833938765, 24609381637343951531, 15553765602498787858, 16873515981096496193,
        2541259553464363904, 2552066317483998069, -13364099913741188235, 2533979186353561253, 3626263444420809945,
    );
    lemma_next(
        34,
        17251679432199776502, 9484366347312051936, 16540400505210149459, 3254648523225332022, 2665571912952126008,
        2504583980785045964, 3573394947710431728, 13757817911460139930, 17550515668363072306, 8322909190701317012,
        11978071349577874161, 1708020838589041686, 3049855100672487712, 13705510369014836413, 1396581180361161141,
        16619200251469316288, 7100916483810458929, 1811770641151964088, 8920631442743899351, 12555273306433977886,
        11856884660419581763, 5008102862869519236, 4358697179053513024, 16218000877997262885, 11576497657829349798,
        -37360368944729413659, -3561429432780915491, -51476062594053065540, -38730746255711057324, -45193604990879756419,
        22149461959718685001, 34152197993087336150, 10344657331511062412, 18680852836762023938, 4855973957965751480,
        28223699613918310809, -12582894239778836259, -13441325911454667022, -3697586226091736242, -2692468295328140245,
    );
    lemma_next(
        35,
        16619200251469316288, 7100916483810458929, 1811770641151964088, 8920631442743899351, 12555273306433977886,
        11856884660419581763, 5008102862869519236, 4358697179053513024, 16218000877997262885, 11576497657829349798,
        10189576174104463784, 11977144528828736517, 15680397248190372168, 17901362035947546045, 6548101551049074758,
        10189003659002881203, 12934905922590315711, 1957421582614672124, 4908311472096124568, 5125484849146938202,
        15977322275926071368, 17385795049160374136, 12285603339339646937, 12081133363396961492, 378040776306981331,
        29274535140445553401, 84280582820355523108, 6140870731096129849, -49554435717019021278, -29608537198457610188,
        122438714070678719793, 98744869862834443306, 63226594902481806913, 47111850790110814214, 43809032892488011244,
        21619073995202251657, 31425187075813076022, 27500713076334894323, 11314863479394878588, 3206413554948769530,
    );
}

proof fn lemma_doublings_4()
    ensures
        doubled(
            48,
            z(17759567781233614676, 11218298497185533005, 17126491317011336728, 7994461272306351679, 7629759713577074495),
            z(9629341137793202737, 8721581680455849439, 314076726042251549, 13678215868607460808, 11168561480271123572),
        ),
{
    lemma_doublings_3();
    lemma_next(
        36,
        10189003659002881203, 12934905922590315711, 1957421582614672124, 4908311472096124568, 5125484849146938202,
        15977322275926071368, 17385795049160374136, 12285603339339646937, 12081133363396961492, 378040776306981331,
        3804466295644893355, 17414515920819585886, 6721237668307838636, 6060620448991528149, 9928486198681885552,
        2191803320995922694, 5658369922535790025, 5732281525635303763, 7687200704320540414, 265825275990273284,
        14481971388634205901, 17769441919123772186, 10339141168613202357, 17963844857305306076, 462770264661545064,
        24555391452249488020, 37242958441608184443, 31050556315740589573, 15249247645198262008, 22282032932100565926,
        70271581126013159221, 34861953338695706488, 38784271376674736673, 31221421278872594864, 17987226329082315236,
        20403556934580326485, 5528248012920973780, 9307565307314662831, 8988738779311483733, 3698435086594364077,
    );
    lemma_next(
        37,
        2191803320995922694, 5658369922535790025, 5732281525635303763, 7687200704320540414, 265825275990273284,
        14481971388634205901, 17769441919123772186, 10339141168613202357, 17963844857305306076, 462770264661545064,
        18374048850514094500, 12103963573595134091, 5916577029814130281, 2060430683841907446, 7180717986804990381,
        15064183648832578357, 8601579671812690896, 4283809806286009974, 11399764934019304964, 9289767737339465194,
        3197116086304298167, 6564459943702784176, 15942694272227514330, 6145750590693706533, 2657874557566955610,
        68426298027801695385, 57129661501968516461, 84184807052224281959, 49004312052780133412, 26691442576550010317,
        50536872114321301197, 38621741793013512608, 24540976622587486297, 20254691277040639473, 18906445737321539051,
        -37109032492552943039, -19613396053878132238, -11976471101567675461, -15667486843834462509, -16299370707643434804,
    );
    lemma_next(
        38,
        15064183648832578357, 8601579671812690896, 4283809806286009974, 11399764934019304964, 9289767737339465194,
        3197116086304298167, 6564459943702784176, 15942694272227514330, 6145750590693706533, 2657874557566955610,
        834273787794892332, 5124300936250294376, 11212251857571866410, 4036892793176798407, 9984646115177141941,
        18033948163486040604, 8968176346977103837, 4559245810445690279, 18369273828134101018, 5171313317268278073,
        14743415795389374027, 10921584685769452286, 16477996966271939116, 16129672866578449332, 12534170327637544248,
        -93144509452641586242, -72473069711983902793, -103934196288333527214, -82521996724914743126, -51026580173338816106,
        31401636598021898782, 39526859002509955202, 15547909719381018191, 22807554851859997265, 9960942436997322687,
        -10186805577214082218, 1645372305529275935, -10532647414623500933, 5423127172164646451, -3604872446957253774,
    );
    lemma_next(
        39,
        18033948163486040604, 8968176346977103837, 4559245810445690279, 18369273828134101018, 5171313317268278073,
        14743415795389374027, 10921584685769452286, 16477996966271939116, 16129672866578449332, 12534170327637544248,
        5664303197333080768, 16301954554534110663, 16601214067924637605, 9176242192846360622, 10399685318243848838,
        2666039061644280412, 13435867668197075840, 11685606322501007369, 2974860982642168559, 16877732884280541926,
        14392844342541684982, 12006200323025555909, 13550444549855471439, 1751601690501211225, 3040801666750664381,
        68868844377950417595, -35913348527854904503, 15414442974168273179, -18342012773838815651, 6057323431475968885,
        106431578052777377868, 79860873911253869126, 55641392624218583378, 52566397140996790479, 37545683614407699333,
        -2945431168151075927, -8475689356449804284, 16260663909802082644, -17745877823791438388, 10038024747766457284,
    );
    lemma_next(
        40,
        2666039061644280412, 13435867668197075840, 11685606322501007369, 2974860982642168559, 16877732884280541926,
        14392844342541684982, 12006200323025555909, 13550444549855471439, 1751601690501211225, 3040801666750664381,
        12334928591947499931, 16673644636859111721, 1044276682459214430, 14287999241213487775, 10099714507079857335,
        8755197609824932222, 12835940633362355799, 9910005494294565353, 2308863411668137238, 12165451471348201107,
        779107194341670514, 12436894405686959398, 368405663904331137, 3026785554008661634, 4932547826503176174,
        -117603656598307212159, -112656627540765464702, -27143315598928090884, -132144172056437697574, -6717437463838341653,
        67874770153756756425, 58929563555603247038, 63404189756935140960, 37584919815698611749, 39395303007517460141,
        13930722010961510266, 161593333358147289, 13428520943079971241, 5107863875205806743, 984318648785494080,
    );
    lemma_next(
        41,
        8755197609824932222, 12835940633362355799, 9910005494294565353, 2308863411668137238, 12165451471348201107,
        779107194341670514, 12436894405686959398, 368405663904331137, 3026785554008661634, 4932547826503176174,
        12628680040796080248, 10773371067330930634, 3119940051423077800, 6944973629750156517, 388605056856517581,
        5080841012533569642, 5863635487888195336, 2204953698949388986, 17152406683142956490, 9170295530218233455,
        9910641295681452684, 9187998710792172722, 1775909514154875022, 16285626468156079160, 5668812307534890687,
        -163339220046495153975, -126965969516988285195, -55604509686546278819, -110164847693032622839, -40443786009781521667,
        17055068663991732502, 22989392262645017957, 11441590120484149406, 13177896556882000469, 9171847295686423103,
        9374864230244688932, -7839380441982981707, 12413174105467859615, -2910090494990357196, -2612953525050654542,
    );
    lemma_next(
        42,
        5080841012533569642, 5863635487888195336, 2204953698949388986, 17152406683142956490, 9170295530218233455,
        9910641295681452684, 9187998710792172722, 1775909514154875022, 16285626468156079160, 5668812307534890687,
        1827084295779493836, 838166784658398391, 2314241103884446969, 2392689743294696078, 9932630285412568589,
        7431187808317911076, 15267382317446722825, 12594024411454963252, 13693442512617487789, 17613923365361880237,
        1340978365775252443, 15198335731726289140, 5278673469243871168, 15882724986186385462, 10860480839967018954,
        -46738570439710461417, -147561142385803634417, -102019766564026579844, -47002205044792670679, -32553976408463865004,
        4689879533869997582, 8573692052320235193, 8226566476449165637, 16728923204988409608, 2475350851795305058,
        -19314869055173361697, -19652080720669161382, 550666626320150808, -15253447578472058399, -4467792226991755744,
    );
    lemma_next(
        43,
        7431187808317911076, 15267382317446722825, 12594024411454963252, 13693442512617487789, 17613923365361880237,
        1340978365775252443, 15198335731726289140, 5278673469243871168, 15882724986186385462, 10860480839967018954,
        186653882120492380, 18362436479013610309, 2896820929150118662, 2925777249896853546, 175466259324326717,
        8468559547871900082, 10951058568549424375, 11587180660080849898, 6296132569071237177, 3801513583608501296,
        10309108222569811562, 11290207927513282494, 1344469125194014154, 3869921581890736369, 3091624183833378489,
        -353917637414560283053, -316218724712285970394, -261675157036837817181, -230357642302758733497, -98024243641257289324,
        3806605885731923876, 1929073418938116047, 18504118073290078371, 5831379282366560628, 6283269924618018582,
        45324552402005319736, 9066741710387414088, 10927191750674398726, 1984533144540426230, 8336105137194363271,
    );
    lemma_next(
        44,
        8468559547871900082, 10951058568549424375, 11587180660080849898, 6296132569071237177, 3801513583608501296,
        10309108222569811562, 11290207927513282494, 1344469125194014154, 3869921581890736369, 3091624183833378489,
        6979665501510523873, 740085355116422817, 6413062737980535344, 17648006993251424056, 12394243065614386197,
        14926353731961665459, 7248207123978129814, 13775381273665437825, 14260661714968740183, 17058862006642973832,
        5142781871809264715, 9535940649821845713, 17518265061840570893, 12393586987307856496, 2780220636552953518,
        -53623028624387378321, -49033282401832887368, -32336582778996347469, -22590886103920979724, -15692104101892949326,
        42436712437662710504, 77064976551529650654, 76028155231412637404, 38852308006320540722, 13024779728464245618,
        -11162351616179678391, -39954625174490423880, -57028328736875086303, -34714753818564396646, -6892862976107311818,
    );
    lemma_next(
        45,
        14926353731961665459, 7248207123978129814, 13775381273665437825, 14260661714968740183, 17058862006642973832,
        5142781871809264715, 9535940649821845713, 17518265061840570893, 12393586987307856496, 2780220636552953518,
        10885891286672920744, 3090332028172961478, 5771939288597323288, 11984204156428767013, 8218242935133017242,
        1933940620193818911, 12455508246164684682, 3147593944191789665, 6063215881303999408, 10207628683785707443,
        1911562392383584341, 4104251596185807370, 18076052166692583296, 68425172568716238, 13252590767042245778,
        -222665452886372780654, -250376561526547580348, -241746471630374917438, -203111168515645618368, -111931848141059702969,
        37183679436817326387, 42433324684476592597, 39364679391676757709, 27062253037656681790, 15520973255013121241,
        32559098399367324474, 35716019588618417550, 33773852226533764952, 22586246061509488900, 11147062078768519542,
    );
    lemma_next(
        46,
        1933940620193818911, 12455508246164684682, 3147593944191789665, 6063215881303999408, 10207628683785707443,
        1911562392383584341, 4104251596185807370, 18076052166692583296, 68425172568716238, 13252590767042245778,
        1212103576075126737, 2170859043145513795, 17075602723407077801, 7181491823973286646, 14619038193550466344,
        720974896708673892, 13306317087416749872, 12504951383026107663, 6506732441880941272, 3806784858593789285,
        9061371473089681733, 1193033315415832728, 16252118060462412211, 6555005377261477210, 10644862954602334393,
        -71565091500431339292, 103583439399731259829, -49440582765678796648, 8964336480895397567, 8852101091385031023,
        50288236626535971891, 89867209659454724286, 36647467122583423050, 39719514044194993834, 19417833136558143706,
        -11843666633564768597, -4903050682331666077, 6829092116844953052, 13772310047362359634, -7663386469640424767,
    );
    lemma_next(
        47,
        720974896708673892, 13306317087416749872, 12504951383026107663, 6506732441880941272, 3806784858593789285,
        9061371473089681733, 1193033315415832728, 16252118060462412211, 6555005377261477210, 10644862954602334393,
        18372679939871830188, 8227925841645698088, 943382453920196161, 15039681066371026311, 14724117658366086452,
        17759567781233614676, 11218298497185533005, 17126491317011336728, 7994461272306351679, 7629759713577074495,
        9629341137793202737, 8721581680455849439, 314076726042251549, 13678215868607460808, 11168561480271123572,
        4857464588397249795, 53399055925145373253, 61933268874791264260, 30715245792873090189, -9360153314262462053,
        62318752853661985246, 57693485491801509854, 77576828053637944298, 66058355494580030841, 42794746365230781064,
        -28617913821353989956, -20812266750669593584, -17456163046171195130, -26482410611989427331, -16605326509446816017,
    );
}

proof fn lemma_doublings_5()
    ensures
        doubled(
            60,
            z(16630284804136241578, 16611132024763013504, 11085784990717608236, 15069782801211694071, 6714233069797771183),
            z(17244741856794461931, 1032562082307683216, 14436693584775586280, 9601966463388376103, 1245623755767863452),
        ),
{
    lemma_doublings_4();
    lemma_next(
        48,
        17759567781233614676, 11218298497185533005, 17126491317011336728, 7994461272306351679, 7629759713577074495,
        9629341137793202737, 8721581680455849439, 314076726042251549, 13678215868607460808, 11168561480271123572,
        12175851412512866511, 1785308090389677572, 512630427727114271, 5823779679652393787, 7083064877692058046,
        17211176062323579438, 12381106272583119099, 15454138962210127271, 9052795069490500081, 13333944024921315721,
        12235133477367654928, 7552547981809832558, 3633465878764583540, 17388235484827300397, 11765793253700351132,
        -226249182218158600065, -181617545231325814354, -123610214790835143433, -86661001955698700129, -90635628608325285398,
        13120838826798795065, 9053656741723378618, 14266582961662713111, 15946379570031115007, 10491930834868947670,
        -1137986146194108404, -265949900884143809, -5615137964926750414, -6966657700656558899, -3977563503140744677,
    );
    lemma_next(
        49,
        17211176062323579438, 12381106272583119099, 15454138962210127271, 9052795069490500081, 13333944024921315721,
        12235133477367654928, 7552547981809832558, 3633465878764583540, 17388235484827300397, 11765793253700351132,
        4019228572622565997, 206927309402842958, 342586215336880845, 14261181058164372233, 10482130703410657943,
        10922668117508691808, 10432843005517354854, 13838303950882401447, 9955039858751273817, 9060295821405895784,
        6708767293866756758, 92606185389454073, 7246612971525319138, 3542537120425836358, 1063219150165119020,
        -295115757249272318389, -212447404138944188736, -113162174085365968959, -132686102545948980149, -118707586504326546849,
        3170344695422396919, 34334158394828431237, 48774030970256020539, 24091236059982312590, 4894065807818961089,
        8532544361653869323, 1395097729433681181, 8864512005415549049, 12004711899093014073, 6030610587556848724,
    );
    lemma_next(
        50,
        10922668117508691808, 10432843005517354854, 13838303950882401447, 9955039858751273817, 9060295821405895784,
        6708767293866756758, 92606185389454073, 7246612971525319138, 3542537120425836358, 1063219150165119020,
        3650004033630268246, 2432404134380988878, 17989667929991056614, 669476439341636314, 10333926001716439899,
        11060221764532758026, 13028694321881094677, 8331733252363327381, 12159091846725780919, 15970732775074437243,
        17744353384502003366, 11943660094556323588, 4371048063617773659, 1292560642540014973, 4806501653866806593,
        -219948689369156045459, -174602967669215160992, -126760159494055626308, -114822398846623870016, -74101120397003336847,
        12815388316006826142, 61502699053394416895, 9690123640295823453, 22376498908410908482, 21809961064905182037,
        -12972258682581424181, -11734973468999905723, -3843407432766161799, -13860278909386267932, 3540883942697852997,
    );
    lemma_next(
        51,
        11060221764532758026, 13028694321881094677, 8331733252363327381, 12159091846725780919, 15970732775074437243,
        17744353384502003366, 11943660094556323588, 4371048063617773659, 1292560642540014973, 4806501653866806593,
        12623348810914158282, 4841131716687476451, 6162555907600011340, 4145214707306739980, 3633230247576637586,
        12752850221664310721, 1867297753589383263, 11754369699941288864, 9417754693847208841, 13240257970849062948,
        11192712366398150947, 14167437048385519856, 715627469316509724, 11027526132136630245, 10063372267003415884,
        -267333289849714825797, -206640465170486055650, -214950681528159148409, -177794701271301554969, -97735479849716308239,
        22668136720422831027, 16702725939249855347, 14603328240753004415, 11054609818490431629, 9207002650998325030,
        8026518770975813904, 9755905403516940165, 3482060552048318169, 5939431573784439415, 3619251055897593801,
    );
    lemma_next(
        52,
        12752850221664310721, 1867297753589383263, 11754369699941288864, 9417754693847208841, 13240257970849062948,
        11192712366398150947, 14167437048385519856, 715627469316509724, 11027526132136630245, 10063372267003415884,
        7032109260957485813, 14078642777556648061, 7768776723184103567, 15137876111833549425, 3707192313163728313,
        8949815447256667814, 13264508706928154214, 224674525592814325, 12190754908586036487, 266881894779345683,
        4724067465348367599, 7676482724602894484, 1805692974691835577, 1264464253466159427, 5736615350526350769,
        -55505010363597631562, -94405520218070825326, -76552782959290340611, -79795801084644128590, -30251497811866748682,
        57908357800331521801, 57369098859407784907, 34921288075191698560, 25634870032566322922, 29204837066171084538,
        49163571046316221130, 15073300274876715860, 27565497997496633045, 13885068309869039262, -903641313939499085,
    );
    lemma_next(
        53,
        8949815447256667814, 13264508706928154214, 224674525592814325, 12190754908586036487, 266881894779345683,
        4724067465348367599, 7676482724602894484, 1805692974691835577, 1264464253466159427, 5736615350526350769,
        13712955681798060118, 17230258237641388267, 177462598094445066, 15844031540910432872, 12479295380482140885,
        15675339135079935983, 4327386420808338619, 7134265219386661383, 5127634952681671431, 2394949310652455956,
        10339622327094762702, 8750885572140043894, 1250910363023801829, 14249972673695953456, 380583618132599684,
        60557459876996962605, -76764485210209443922, 19368743347473737248, 309353801272819815, -22876835479405123003,
        81046518458296178995, 67163244962203625737, 80669139471012731312, 49214695755097048786, 48153812324105934902,
        -10425053556329377311, 4476850271078526041, 11997849762838698813, -11212901874553140594, 8075210609665127292,
    );
    lemma_next(
        54,
        15675339135079935983, 4327386420808338619, 7134265219386661383, 5127634952681671431, 2394949310652455956,
        10339622327094762702, 8750885572140043894, 1250910363023801829, 14249972673695953456, 380583618132599684,
        8106069800704450690, 9606487082968642009, 12475301172853190247, 4890170734796978830, 6298361323164311269,
        6900596789623137293, 8568239560588643009, 313502644739111149, 12264641054139687160, 612368304885545222,
        2060955546076252180, 16564002142087520553, 12026286939024592919, 11172194550046657573, 9450432152348428575,
        2245798606742787612, -6331261955691753348, 2593802227831195259, -7059207751431625990, 862958718473966561,
        43084960739512733587, 37888894804206152011, 25984872440020966326, 23742717641491301467, 19065574664878226835,
        -6758612724554752063, 7633208771591022985, 830199457138846109, 1699843814486050775, 3551154508829048188,
    );
    lemma_next(
        55,
        6900596789623137293, 8568239560588643009, 313502644739111149, 12264641054139687160, 612368304885545222,
        2060955546076252180, 16564002142087520553, 12026286939024592919, 11172194550046657573, 9450432152348428575,
        4802033240081830477, 11871984904502682221, 12289110713801642170, 3620132388008019696, 8602947424914554953,
        13320435658395215055, 7561234747847728452, 7156167140867901395, 4793499219191345602, 125204718179748768,
        12816511785114937223, 6409440210144697430, 8249767090307512616, 16940340474832147925, 3381376497081844254,
        126117142295968746998, 3050690561552115263, 52745993414688088101, 42034696585577393428, 8177081487363974653,
        48940514266781082366, 42699722240912103432, 24168618147685449536, 29739252467137142149, 17325650209767023042,
        11581401985784132120, -8070899577749893646, 5329647543616215274, -2366362476641490294, -2419811762374871247,
    );
    lemma_next(
        56,
        13320435658395215055, 7561234747847728452, 7156167140867901395, 4793499219191345602, 125204718179748768,
        12816511785114937223, 6409440210144697430, 8249767090307512616, 16940340474832147925, 3381376497081844254,
        9796193011444377479, 7755825704060766112, 6961609797038644676, 14814477776239667071, 14169761587321290731,
        2828512701930089303, 15115127915452576757, 10919118313855256077, 6014107707928262357, 9407030806131989256,
        18302079181506169758, 11235420615444879974, 7624603170918473974, 8265868335073825753, 15405606646176973559,
        66541268256049814216, 100046788886902728643, 77306042146808524928, 27561615330818129928, 33387818911361041191,
        74492836293127206116, 76014904728972331214, 78932796060752099971, 54241738178294854084, 30134340391125639266,
        -33991095485368347972, -21721102511726401780, -26390132157857211535, -18044419872781126999, -4869613820808795100,
    );
    lemma_next(
        57,
        2828512701930089303, 15115127915452576757, 10919118313855256077, 6014107707928262357, 9407030806131989256,
        18302079181506169758, 11235420615444879974, 7624603170918473974, 8265868335073825753, 15405606646176973559,
        2281347920867511873, 15569286410650300978, 1922945705618135388, 579854421571457447, 9058070715072439968,
        9692652084066077009, 13191184075120415747, 2691698433518361812, 7839456813590296115, 13197830995712685593,
        14520996680472691121, 16305897786826643231, 10803513109957147483, 14131001800301200216, 6401449660112185680,
        -81872207195113320000, -64449835497303777524, -50480025439073601251, -38593234326922626874, -19578425632742950859,
        46515574795832539674, 9571102642684973898, 15324691922772887502, 16733002762989378273, 3419724405945854819,
        -7408137579033514442, 5206841221725093551, -1120636136849702129, 1118800667246739477, -4461865340479636442,
    );
    lemma_next(
        58,
        9692652084066077009, 13191184075120415747, 2691698433518361812, 7839456813590296115, 13197830995712685593,
        14520996680472691121, 16305897786826643231, 10803513109957147483, 14131001800301200216, 6401449660112185680,
        17194818443906547730, 3420148561681311738, 16222293131863737238, 3880486096482053419, 18249407497945030807,
        1971357438058685828, 12100653018868692897, 5838742862941248447, 16529015406570944733, 6147132182360780638,
        6534105970543560210, 15015382220299127548, 10358692288455136167, 10060529661393464002, 10123217257633655130,
        13430820469161785872, 45287919181907893052, 5942708732182472859, -18109710173849656493, -4655013853074792128,
        56804506199964931342, 105117499563275673608, 53910631335433020931, 67412245231419798772, 49726768374919096204,
        -10555558046604387668, 6225529238955737648, -17281285203793586765, 14825802075588165686, 10061638506587423783,
    );
    lemma_next(
        59,
        1971357438058685828, 12100653018868692897, 5838742862941248447, 16529015406570944733, 6147132182360780638,
        6534105970543560210, 15015382220299127548, 10358692288455136167, 10060529661393464002, 10123217257633655130,
        3503961860110427131, 1916524222914448710, 7771316101205008305, 9830095701145457762, 11558010150268207619,
        16630284804136241578, 16611132024763013504, 11085784990717608236, 15069782801211694071, 6714233069797771183,
        17244741856794461931, 1032562082307683216, 14436693584775586280, 9601966463388376103, 1245623755767863452,
        -43594848282193086261, -72317547806310420450, -43953093251081865933, 11631663402049966910, -35686450183253225315,
        32718059673201163487, 45658404493814057344, 40106369346682652788, 27074652630382913890, 9707417190332059504,
        -17983536855128632484, -10626428482661066057, -5804576017503813022, -11045725881087623113, -13754911914915268266,
    );
}

proof fn lemma_doublings_6()
    ensures
        doubled(
            72,
            z(566283650678986877, 7669734282843000610, 13977399379548814040, 10764297607563405116, 5728186301684669853),
            z(16241922647918381483, 7968588928686901543, 6092111090593458231, 3274020234236448060, 18132757303135675219),
        ),
{
    lemma_doublings_5();
    lemma_next(
        60,
        16630284804136241578, 16611132024763013504, 11085784990717608236, 15069782801211694071, 6714233069797771183,
        17244741856794461931, 1032562082307683216, 14436693584775586280, 9601966463388376103, 1245623755767863452,
        5273118914384879226, 1658602340214340334, 13273373921020722747, 5873502337851134667, 626092182667827327,
        16463816975246549747, 2690252065397591540, 9602582380787107592, 2284338869020021904, 16176000618687416497,
        603243384617771764, 14912536318639420958, 196326814583862729, 1384260234126785170, 14055719381394515804,
        -237046459480092249417, -242928892861616599358, -165979812702788151058, -142598772977685363415, -112683286199631333190,
        27202825902005918975, 9261701530419356781, 8933784881264848990, 5808603648377982901, 10965023474759422986,
        27928931622932904698, -4066533752643499419, -5940703898552077739, 12894535033127963196, 3950214171221736431,
    );
    lemma_next(
        61,
        16463816975246549747, 2690252065397591540, 9602582380787107592, 2284338869020021904, 16176000618687416497,
        603243384617771764, 14912536318639420958, 196326814583862729, 1384260234126785170, 14055719381394515804,
        226432683699985337, 13681702973857683336, 7742334193620389844, 7265002230579235625, 2724327807737007725,
        10908506024084689802, 2554190436453736334, 3520736738092113175, 8395716838297810583, 14802358504160407129,
        16050753902298454179, 12725019117402625925, 7197277232876110234, 13014055582168035172, 9691774659033782843,
        -28221494802762281600, -128419728041700199353, -31583131321554095994, -122524961304635448277, -89130318121373733358,
        30421649694984932713, 15780165790902836325, 16775248559842155583, 12870162156848685062, 14093148186335729903,
        2675599446995526203, 1325535384044970485, 1422478975205138497, 7289401570322753716, -1089209183375961112,
    );
    lemma_next(
        62,
        10908506024084689802, 2554190436453736334, 3520736738092113175, 8395716838297810583, 14802358504160407129,
        16050753902298454179, 12725019117402625925, 7197277232876110234, 13014055582168035172, 9691774659033782843,
        4378898182598874814, 5256847577341065441, 678977422010168967, 2101734390228005716, 8181911490598588163,
        12607746751099370026, 17876946862417327588, 11690384426035051708, 14236519709494169527, 1605331124321607694,
        10658633606295058365, 12052054863008265782, 12472743804285073797, 10936520012668226458, 1594828391424774685,
        -19237483555684663281, -48925946705309731714, -81709332367973426722, -98948398761928782049, -31824755799604474297,
        15493427945359566176, 5021062883721620266, 7413667175132284707, 12271875703560330036, 5107325139481511053,
        -12947186557374479729, -15531491056663715541, -9629561364786991831, 13088092777289641734, -1331952067558095849,
    );
    lemma_next(
        63,
        12607746751099370026, 17876946862417327588, 11690384426035051708, 14236519709494169527, 1605331124321607694,
        10658633606295058365, 12052054863008265782, 12472743804285073797, 10936520012668226458, 1594828391424774685,
        5660951538043890351, 2886314431929345896, 10245380159714962532, 4047430146975363831, 2224286132091548142,
        13584537928255932547, 2589762677794703634, 3030987530484294251, 8936968300574185040, 16640779920115507942,
        600878698061383735, 4211490396161487168, 885710774105646742, 4566255915493449202, 15046560321203642326,
        -146630635073765431539, -151038830652623329052, -88936770934519821340, -97780068783089552482, -85474465102232118674,
        17313140424727286226, 11847922096739303449, 9668040492890534625, 6494898774757767424, 8322079936237840930,
        12702578684015002322, -13892932072162524707, -3472980395250850082, 5818606485423745918, 4260978774546580929,
    );
    lemma_next(
        64,
        13584537928255932547, 2589762677794703634, 3030987530484294251, 8936968300574185040, 16640779920115507942,
        600878698061383735, 4211490396161487168, 885710774105646742, 4566255915493449202, 15046560321203642326,
        1393755627101348079, 15173383104528747017, 15233717026064171961, 14578603201416705343, 2272440356094428468,
        4703580918095819385, 13533307037074170806, 13594536637077027750, 7862353193856908203, 13972649383445126377,
        11336061973075915293, 9959039386012921611, 17703923563258439296, 3528160770043838992, 9742111732118810948,
        5792844903832221324, -1140267903545567305, -76821506787438707988, -155971702791455996862, -64496322011164173019,
        83556431010982130116, 48117394961481133807, 25558426366110166539, 28103822720400798217, 36907003639419542146,
        -19172396770678123543, 11732272550763961679, 4257403582013599392, -9640532401143088620, -15192816352474610449,
    );
    lemma_next(
        65,
        4703580918095819385, 13533307037074170806, 13594536637077027750, 7862353193856908203, 13972649383445126377,
        11336061973075915293, 9959039386012921611, 17703923563258439296, 3528160770043838992, 9742111732118810948,
        15479313636669275480, 2138853942534730075, 5184598064143446437, 11819117560088009484, 17172619397088651024,
        18097392160672089485, 18159131390654469926, 16917488662598398611, 1048475044105013688, 8467090872857257589,
        1872031596878996603, 12628468964236007093, 5883432338876264779, 1003240085704918356, 10723153577016416891,
        -136972907798036960298, -87994434839837796626, -62229359064615719954, -82556545924034243901, -25053790821249011542,
        44867090901576463433, 55266629902533670798, 74965748688587009130, 68997456534595151744, 33018266551402971546,
        -22885026941739706683, 3024438418404471212, 22523022458665762281, 10826591410375707013, -10956513376872326591,
    );
    lemma_next(
        66,
        18097392160672089485, 18159131390654469926, 16917488662598398611, 1048475044105013688, 8467090872857257589,
        1872031596878996603, 12628468964236007093, 5883432338876264779, 1003240085704918356, 10723153577016416891,
        10667808458773378407, 2456762444469787356, 3409025700694299767, 11725626972360474282, 10272235714242708841,
        5733042392789280169, 11364715558390464588, 15836396516210721389, 9240911168881219178, 8645943406204808921,
        14819988440193722974, 600769991429373399, 12301359002152121576, 15555068750807598673, 9958364933212889165,
        -144124576433017502634, -196722003825618489035, -106763797800771658702, -95469058479922670953, -69594547697857484131,
        27379280331894830650, 36591683434113282038, 43447221365948622235, 31630530316840898221, 15634200875541603388,
        15949081099275050955, -8339682663466023476, -10212091774965852883, 4222484579759855895, 10209332175274626806,
    );
    lemma_next(
        67,
        5733042392789280169, 11364715558390464588, 15836396516210721389, 9240911168881219178, 8645943406204808921,
        14819988440193722974, 600769991429373399, 12301359002152121576, 15555068750807598673, 9958364933212889165,
        18322033658522552779, 11877503777011489826, 6892748190564186098, 9900689133961640575, 456904794297969598,
        9031176490870804378, 3103612885155702468, 10900415971876116555, 2327849582993708920, 17974754680971063475,
        14484540172804417015, 16196538449238485235, 11241950047251832135, 17311391076882291680, 3698213983316638686,
        -101534425304529185494, -101935691315688299845, -57831051078171065368, -47663749069640038083, -40682347574325662325,
        42160068338254058953, 40560380698879295803, 22811367527891144887, 28577676821140233842, 16232879455515549551,
        -4984894883096814230, 7122189158938676142, -5517714990569976985, 10667966019602272982, 1381992832247125721,
    );
    lemma_next(
        68,
        9031176490870804378, 3103612885155702468, 10900415971876116555, 2327849582993708920, 17974754680971063475,
        14484540172804417015, 16196538449238485235, 11241950047251832135, 17311391076882291680, 3698213983316638686,
        4065094565713717380, 9827098851093567051, 7729789714793373790, 3025148026861317303, 1731062109571103389,
        7132232567635052586, 2427523506687831298, 7318205977810025066, 12718311331662482275, 13555361812483525044,
        18327540344672586773, 9390337830162387723, 13743528781586131108, 7214687028072309087, 527186510960214920,
        -10550085813762630255, -147715250455205326397, -26679054994432373194, -135461019281447362821, -36947394409887863435,
        14034750646800653272, 10171725148959298853, 10345285769095290187, 10056385465280331348, 7225143270854172812,
        -3627644523665043864, 2612788400000279232, 1194400789877865101, 1457485821802689525, -2771256233378449863,
    );
    lemma_next(
        69,
        7132232567635052586, 2427523506687831298, 7318205977810025066, 12718311331662482275, 13555361812483525044,
        18327540344672586773, 9390337830162387723, 13743528781586131108, 7214687028072309087, 527186510960214920,
        8273647387181775412, 14019133462554764290, 60996442913928173, 18277557135966828694, 886508648116782114,
        10228911048754896284, 4334847942087204191, 16193847401210916859, 1529616573821336429, 16280337765108253450,
        4254987992251369677, 8432791250175079461, 7354922594603575666, 16015311880905903718, 13067861825008862262,
        -27803019144996281321, -98203993481476290616, -154224553647601443290, -61037201396450443002, -18298351660720781476,
        8115846063061920620, 66922946242496254453, 15979226624368774917, 16616051690649540605, 28576537096194808607,
        -34148385477721897924, 28742693140711233492, -11927467299681839094, -5194449941455500056, 5212977878120056023,
    );
    lemma_next(
        70,
        10228911048754896284, 4334847942087204191, 16193847401210916859, 1529616573821336429, 16280337765108253450,
        4254987992251369677, 8432791250175079461, 7354922594603575666, 16015311880905903718, 13067861825008862262,
        5414957858796910522, 7585515789507855088, 18177343650340308167, 5554586957520022182, 6939315086838260367,
        7263366969514725113, 17576080517578121110, 15596531665450402087, 15164972774224479655, 15101238410886296003,
        3653870557776417818, 208902242535267902, 2536998366903603916, 17360248795051392687, 10853746501425948069,
        51699867519053903169, -141572583201038480288, -1836968881490890861, -93108596579162595476, -55352503665694456215,
        51551497964456426383, 50498922311934348366, 26328186812864097131, 26041833884261713274, 26554107977458537446,
        -52387286587827336398, -10825123424083026310, -16670329113068236837, -14581194754975055245, -7543854650690818422,
    );
    lemma_next(
        71,
        7263366969514725113, 17576080517578121110, 15596531665450402087, 15164972774224479655, 15101238410886296003,
        3653870557776417818, 208902242535267902, 2536998366903603916, 17360248795051392687, 10853746501425948069,
        12388972052454123359, 1955772452703673742, 14990366926355663944, 12246869377985553706, 4707678630749023477,
        566283650678986877, 7669734282843000610, 13977399379548814040, 10764297607563405116, 5728186301684669853,
        16241922647918381483, 7968588928686901543, 6092111090593458231, 3274020234236448060, 18132757303135675219,
        -391482421879905312916, -256535839067973322918, -231341838239291172578, -190584528045826838391, -137406136274921863547,
        71028247951519943446, 49972852987401775922, 39095325905329291834, 23233067632278685165, 21101928699244434827,
        29016689453597888177, 40218177860675334906, 29617595703292605039, 22799715512219114414, 16363322990864801640,
    );
}

proof fn lemma_doublings_7()
    ensures
        doubled(
            84,
            z(17913145448884488213, 6023376043967429104, 7078282762953296722, 206018011667902248, 1341487746018049798),
            z(8636518798808226175, 17966364165503381320, 5799700597366248866, 10731511387966940340, 18205692423789677505),
        ),
{
    lemma_doublings_6();
    lemma_next(
        72,
        566283650678986877, 7669734282843000610, 13977399379548814040, 10764297607563405116, 5728186301684669853,
        16241922647918381483, 7968588928686901543, 6092111090593458231, 3274020234236448060, 18132757303135675219,
        93809761929189378, 10417989945432349352, 2209398664231949146, 10795133819270852086, 13432354605759858916,
        497988358578127706, 3579891610143989446, 12424833249839678328, 14215831465802979403, 13910611647781674128,
        4379091433935000033, 18184518174588094032, 5666592935342364413, 13599736541098220336, 4950791872551883215,
        -69567252289410456606, -66501024658955164587, 18618051443671457984, 54195016145603403327, -21358987944222285378,
        53274558012738919512, 28710970173857968050, 53070256193024490768, 31948446433307983973, 12594569791623582282,
        -3443164943015910896, -5548675956330218191, -19579245600042028640, -16485485714586388948, 638181275599910004,
    );
    lemma_next(
        73,
        497988358578127706, 3579891610143989446, 12424833249839678328, 14215831465802979403, 13910611647781674128,
        4379091433935000033, 18184518174588094032, 5666592935342364413, 13599736541098220336, 4950791872551883215,
        16790772136296943515, 4558248618586819228, 3600918021544051957, 10267814264163412960, 16715007302687211904,
        1153377862094908512, 14882400388925715709, 9006978279616672645, 14247394493698570778, 2172460047700907972,
        14052207100610412381, 14678910624425188024, 16411228099590246398, 15381498816355072536, 4545523107283388706,
        -71954698658838881613, -150535018986756603062, -85573757724256823460, -44730669712902014396, 2213424566381525984,
        52091486907074281733, 45021131106629654367, 63505058479257824073, 65909258636703933736, 36206328130732018581,
        -16930471447916445921, 5662530427060061143, 19705457304966296548, 30153316319529015188, 4458741918940572126,
    );
    lemma_next(
        74,
        1153377862094908512, 14882400388925715709, 9006978279616672645, 14247394493698570778, 2172460047700907972,
        14052207100610412381, 14678910624425188024, 16411228099590246398, 15381498816355072536, 4545523107283388706,
        5602290233545736760, 5113576000460856553, 2385231194175992618, 2376801380419576820, 6816513679952185764,
        3229222367000845941, 15147487748587183300, 5799739247969647719, 346071140046447025, 4566292351908648168,
        2402279653298374954, 4928928892605727485, 2098883150604900737, 3961168400558013197, 10254985352679258457,
        -83721529637371761663, -55202220783193031201, -10244106905974500967, -15310554097363048066, -53274603009300178599,
        14882926990319453907, 9313122896966216274, 8136024901763030240, 10322675905935743615, 5766514268046202972,
        3717132521007600791, 7344331545905273042, 15117446205137578076, 2155435765585826375, 2740020356167900418,
    );
    lemma_next(
        75,
        3229222367000845941, 15147487748587183300, 5799739247969647719, 346071140046447025, 4566292351908648168,
        2402279653298374954, 4928928892605727485, 2098883150604900737, 3961168400558013197, 10254985352679258457,
        4981932787500715046, 11979692765794593800, 12522821871033652725, 14017070216869784215, 9505864130036043418,
        10296013997739644539, 18352275182318572152, 3606277329568887519, 14206214462826760539, 2406922546141151610,
        17526232040910613301, 4194500351712843881, 1773655795186860383, 13394624109035110260, 6484066530078841260,
        11052667529478356476, 30291821923208005712, 24850621256069990516, 7804747247053088304, 11528706173572281737,
        95479358257295568945, 77143168180327389663, 57883111425192466003, 38531877303073240403, 31841749802491086935,
        -25883154716643532601, -29261715208156826078, -22790724659508722996, -6525919742428642759, -13005643773183996833,
    );
    lemma_next(
        76,
        10296013997739644539, 18352275182318572152, 3606277329568887519, 14206214462826760539, 2406922546141151610,
        17526232040910613301, 4194500351712843881, 1773655795186860383, 13394624109035110260, 6484066530078841260,
        17209636357914003023, 7789570964625434815, 2111205870244930537, 6607174229558198271, 11189575421256656467,
        2694359916842300151, 1997035363946199204, 10641470568633096136, 3842514233407224722, 15309560893024876033,
        5077247649508256538, 17217812699523331884, 960554451542293592, 9706030083938354474, 17356382376715904333,
        -32927973921360290134, -106072273065019133378, -26668751607592795856, -8323774475673069088, -46892373429994526893,
        48942954980931597452, 29317726918328081299, 31275569847303188695, 34473547175239927683, 26700014996972964568,
        16508045567418951684, 12371983836062196410, 6208256453799277768, -12187301312180410957, 2002929280780869948,
    );
    lemma_next(
        77,
        2694359916842300151, 1997035363946199204, 10641470568633096136, 3842514233407224722, 15309560893024876033,
        5077247649508256538, 17217812699523331884, 960554451542293592, 9706030083938354474, 17356382376715904333,
        18379991084658048042, 3145798428092602282, 17866952989792192207, 6509894311883358290, 626735780082951307,
        6999593716002077558, 15115661692986028663, 16272315610363301477, 9470354945438453283, 717149944973115440,
        14895767201123681394, 4875861979147289888, 2087645711070981226, 15580372136474295114, 13986066086297400437,
        18912795201532986870, -10269185049465227249, -11025820254644630808, -64488477955626790571, 17926537711635095054,
        56786467506395689768, 16803118053398263091, 37468120152424758783, 19130403499681541368, 20774638298490305971,
        -20475551637055748178, 22063786765398932138, 2857892201295572562, -19306003433973366362, 3350139829270267328,
    );
    lemma_next(
        78,
        6999593716002077558, 15115661692986028663, 16272315610363301477, 9470354945438453283, 717149944973115440,
        14895767201123681394, 4875861979147289888, 2087645711070981226, 15580372136474295114, 13986066086297400437,
        17619830946169803150, 3239127446906019567, 9023056978283883939, 6290727649861540158, 3628286439832550389,
        13496533877098645244, 8075170964125013293, 8427743169138563281, 5281466753694938987, 7025431520592233796,
        8780437234129608445, 2066425668361974815, 3999526965171797443, 156928388331040589, 18035860456873547223,
        -69975119658785139459, 377274433521978742, -13555563122027368947, -39883277006110539180, -47839227702455602497,
        39114918986724580890, 23272124837575739919, 25229861323388723806, 17327186018859703516, 13554049476922468277,
        8797960007761889711, 5241489681795648539, 1569233049016985455, 2884443015342547939, -329783850704592818,
    );
    lemma_next(
        79,
        13496533877098645244, 8075170964125013293, 8427743169138563281, 5281466753694938987, 7025431520592233796,
        8780437234129608445, 2066425668361974815, 3999526965171797443, 156928388331040589, 18035860456873547223,
        17283799302286963752, 14297665157803754649, 7775937898551461608, 13445993849034986518, 3516442119528932276,
        7944092064537560949, 8954767974514341258, 3249994179370084019, 3239652378986068155, 6555137447402043216,
        11925568235191075009, 16445171086074091928, 15685733842375882220, 16846658816646839792, 12013702737140535960,
        -7833562154591769519, -38472332701097038610, 13351312637476948103, -27736437824843066652, -12491139364555986071,
        66554968424736106475, 65089102482049695832, 41032232074435607660, 39261526248231679055, 30710720727150144244,
        19697322341746345702, 11500107652523039096, 8706192963506232812, 9871645798277319731, 4623107750639747071,
    );
    lemma_next(
        80,
        7944092064537560949, 8954767974514341258, 3249994179370084019, 3239652378986068155, 6555137447402043216,
        11925568235191075009, 16445171086074091928, 15685733842375882220, 16846658816646839792, 12013702737140535960,
        14495965276266877559, 14516627608488818516, 2353996602300159170, 1005420026268669034, 4545554529641480696,
        3687630204184693543, 2158957797179103270, 11483112512128617658, 7237726195504373477, 18301170527627841039,
        11733664830165187033, 10959585084378655949, 10310758885214949193, 15126775984512775161, 16472130831287276558,
        39994943838540636034, 33467618215587134308, 40254890675446857830, 35622557419700719862, 28978028092813900449,
        33623834818566679416, 26459899126010651690, 16610006151380242924, 8645398291313765953, 9026867660010032245,
        -22238734647422229226, -2546821326981684495, -5454866885599916508, -17204819802988499135, -12008013176851815309,
    );
    lemma_next(
        81,
        3687630204184693543, 2158957797179103270, 11483112512128617658, 7237726195504373477, 18301170527627841039,
        11733664830165187033, 10959585084378655949, 10310758885214949193, 15126775984512775161, 16472130831287276558,
        4937748644534994898, 7283900566347370951, 245072170798682972, 2021061569106493240, 14101894764661550621,
        6785882837226908503, 8749184456000485210, 14549204595477328743, 5452068610661956581, 1553984315983987298,
        213483168728866141, 9596037830885171353, 9464473287991886327, 5632437735094085675, 16562954963221386846,
        -18304956257168399212, -159528610479882418496, -49083955057516938854, -85498313752200231189, -7098655054627143086,
        34892552881323837601, 5687838529903088158, 12277516375203929814, 33616743216113478932, 9148807305434505524,
        2958497082603200935, -8764787452268632741, 6135679322328312498, 37248218334478604540, 2056625706250336130,
    );
    lemma_next(
        82,
        6785882837226908503, 8749184456000485210, 14549204595477328743, 5452068610661956581, 1553984315983987298,
        213483168728866141, 9596037830885171353, 9464473287991886327, 5632437735094085675, 16562954963221386846,
        14393399665274493416, 2171909296594659290, 4843869604994884068, 4518681980038631204, 16109496485283183344,
        16990757688321155310, 12338093904292886085, 11847476563071585499, 14444283116405713417, 5657160190033013443,
        16695859193024994584, 14176008097242925484, 6502587671383211736, 1585622726798522900, 9607602682471499728,
        -13058438553011598248, 43115279155590294468, 18168555086622039606, 48333287751390583346, -16152700002816778295,
        29730318842510241092, 32090843653971669975, 31491673487866200507, 50397344364991687357, 27475431343473416153,
        -23912685337203936043, -6764058473365955951, -27568106339688614837, -20890283566077134079, -13341901492712711850,
    );
    lemma_next(
        83,
        16990757688321155310, 12338093904292886085, 11847476563071585499, 14444283116405713417, 5657160190033013443,
        16695859193024994584, 14176008097242925484, 6502587671383211736, 1585622726798522900, 9607602682471499728,
        8143842996568592847, 8749149501916422861, 850063787890175507, 17716172338409314286, 10065831693841403538,
        17913145448884488213, 6023376043967429104, 7078282762953296722, 206018011667902248, 1341487746018049798,
        8636518798808226175, 17966364165503381320, 5799700597366248866, 10731511387966940340, 18205692423789677505,
        -155637298231387641831, -173940498475984795022, -88684483103692225477, -70584967551361189631, -56020893904625971885,
        37138599292509369576, 61551853085936460764, 62903309049926121027, 32926841894795641828, 25732161368275648549,
        31780033755476472204, 51777274673279091345, 40800447801391089553, 15017816365388729159, 14439459707914591842,
    );
}

proof fn lemma_doublings_8()
    ensures
        doubled(
            96,
            z(14014487426336218810, 7106841467915049543, 13989194747185981804, 9272576812448076588, 14355793319311292557),
            z(15354612259642644078, 7744575832369453423, 1909836473724300169, 7701332759658538167, 2573183717578476631),
        ),
{
    lemma_doublings_7();
    lemma_next(
        84,
        17913145448884488213, 6023376043967429104, 7078282762953296722, 206018011667902248, 1341487746018049798,
        8636518798808226175, 17966364165503381320, 5799700597366248866, 10731511387966940340, 18205692423789677505,
        6195412722667202644, 18098604259789025156, 683286697189065657, 1982228068900812863, 7319489533536489154,
        3948160327188423814, 1292341971670837130, 5644207381756374848, 13568937918399287945, 14310230819619653760,
        1939296558305204714, 2706899040301545893, 9248267299489265714, 15149868149098146579, 8429646919060785617,
        100378968855379772018, 9406956219952563055, 29665731854293117772, 49173182973291758874, 28063668717325913496,
        45609403088520401466, 14422718096395752165, 22935177415310631432, 11385168751501758035, 8831505440737199981,
        -28872708218159255122, 11248509369092591640, -14446906454714128789, -16842719748564981192, -11363657380162073636,
    );
    lemma_next(
        85,
        3948160327188423814, 1292341971670837130, 5644207381756374848, 13568937918399287945, 14310230819619653760,
        1939296558305204714, 2706899040301545893, 9248267299489265714, 15149868149098146579, 8429646919060785617,
        18341375213456898701, 6943179559435994883, 14707211499221065061, 11175987870217344039, 17583427345237103877,
        7717145929938498177, 5008552319677098194, 14640234647164448063, 13412409885494400786, 5318278234837007249,
        8273540761286829507, 2107316154399553229, 12248388233164307479, 6846194576308943437, 11446783863161955302,
        49153255978785911183, -15170458740792616722, -56183231559626460242, -27743584598006426926, 20629933300688743534,
        111408338559759415496, 118233447509879545617, 95777429827794506270, 83577152702233448315, 55104810056823161780,
        -20197249967466222447, -9046822324178208184, 3442648798357840793, 17236684778467822218, -4016909604877827113,
    );
    lemma_next(
        86,
        7717145929938498177, 5008552319677098194, 14640234647164448063, 13412409885494400786, 5318278234837007249,
        8273540761286829507, 2107316154399553229, 12248388233164307479, 6846194576308943437, 11446783863161955302,
        2832837796173265057, 12974562257267773174, 7606905032396316052, 14550921144345286466, 18247926003828874199,
        10395278300655212380, 4951423775712070232, 14670117846407564851, 13486916006896832382, 7936338253020806093,
        9651073405395868871, 17511660594804619164, 1086490647768578042, 16777517183035049339, 16189506684071629564,
        -89018279526298149558, -30607317641853200437, -2071225085121767070, 30747489017620120565, -27115552302680930915,
        113445653378956046703, 83568081946837438532, 97826603390269888111, 69323547295997171589, 29210330868738468327,
        -5928883555640003043, -5378731227850653309, -7485333763638764649, -9890959753506811462, -3070982636250122479,
    );
    lemma_next(
        87,
        10395278300655212380, 4951423775712070232, 14670117846407564851, 13486916006896832382, 7936338253020806093,
        9651073405395868871, 17511660594804619164, 1086490647768578042, 16777517183035049339, 16189506684071629564,
        2833812357877149051, 15665702995492745870, 5063126875980725884, 677143177725181578, 12176465789588474005,
        12743841263024942392, 16487725512824241264, 4077186824052512928, 4208169175469018888, 8636691342511849414,
        13981489008080177197, 5462800762501780976, 8783450802029061119, 13898023534976436067, 10277547238780223766,
        -66299302571271171249, -162662648698152644637, -52645484381775575606, -18517351568457308947, -35461396056926162369,
        63594889079841690141, 24940381867253402504, 17541383811474488018, 32920261279459992659, 6280931724386270966,
        -16183175530861769400, 17655200929901866897, 9482830215679617060, 5781854468010224479, 8706027001760132855,
    );
    lemma_next(
        88,
        12743841263024942392, 16487725512824241264, 4077186824052512928, 4208169175469018888, 8636691342511849414,
        13981489008080177197, 5462800762501780976, 8783450802029061119, 13898023534976436067, 10277547238780223766,
        15143146568198047304, 6603689685290936328, 10688251991123916000, 4494408631512846736, 3006880632813757126,
        9794115663359600407, 9472598973480635334, 4311771402478838762, 4066179878842194703, 319533213920374738,
        16034044358321743990, 13522628902389610321, 16107939770485437768, 137007059790498386, 16019739506194557229,
        -70575418239941851247, -27727125713482034427, -33423962649587291524, -23399459410318616172, -16847782086767779956,
        34514392205863324633, 24580500178773250650, 24307875162761881942, 16501924047864203597, 14347537849725322498,
        14859574121205854905, 21260997414515960211, 10176524180597766555, 8883077568649917563, 8932558296766313099,
    );
    lemma_next(
        89,
        9794115663359600407, 9472598973480635334, 4311771402478838762, 4066179878842194703, 319533213920374738,
        16034044358321743990, 13522628902389610321, 16107939770485437768, 137007059790498386, 16019739506194557229,
        845529800102459321, 464366173452576257, 3150919421272331265, 16377198973476362359, 6959974796990759419,
        15904268742341672526, 4769513051779731548, 4412197023710730880, 10535070756579389026, 14268622402907025524,
        17440284577120236475, 14698052950560020380, 12690038020635275546, 8801417551133150468, 7225650555870658851,
        84785631221420359234, 16072750398106256508, 63683713412718969976, 43891086040065587650, 26519083041016623220,
        17874492455381199329, 50795149786685046111, 37375342688642414381, 9537993653500826059, 2000789933251744669,
        407571848721787341, -24429348291431788645, -45404464633723764898, -20709364665434328976, 1050707088652653326,
    );
    lemma_next(
        90,
        15904268742341672526, 4769513051779731548, 4412197023710730880, 10535070756579389026, 14268622402907025524,
        17440284577120236475, 14698052950560020380, 12690038020635275546, 8801417551133150468, 7225650555870658851,
        992151596490910576, 10982347961812915620, 1100476824570715339, 14194395761111312175, 15508901217694420549,
        7260427573778107675, 13706603442475278494, 6721864612143912844, 3199034599594147927, 8427393344096252985,
        5321174176443127043, 907524997636783995, 11245345124848252759, 18200250075269412454, 14848207303259925982,
        10669132239465532529, -10671187172455854537, -74499306908630535240, -79574735851794361020, -28605028219224520782,
        60533874167735917599, 39499547271982416471, 78259476643813126694, 41954052795566588904, 18635321055367727216,
        -15662369371870796761, 16820188731294293099, 27057907857429384668, 19870447622153041266, 4934227489844052984,
    );
    lemma_next(
        91,
        7260427573778107675, 13706603442475278494, 6721864612143912844, 3199034599594147927, 8427393344096252985,
        5321174176443127043, 907524997636783995, 11245345124848252759, 18200250075269412454, 14848207303259925982,
        11453076362852574502, 3779799921701325596, 13582593978425459509, 6929294005425612521, 4601123379604254797,
        3495807145350570624, 6122520303309710238, 16798608826597068749, 955090147307445976, 4140878057064378432,
        4673211311929897574, 3345608728796838475, 12638225379958597144, 11470785582617835095, 14891950540450650404,
        -10297020689734755794, 34117345812264905922, 10140973481068151952, -17408747493040470367, 4281023293530731524,
        43380427033567398116, 32829488092856265039, 28010746910126148197, 17613593484155334329, 18554146065894625819,
        4248472874115014067, 9937277123978137587, 4579207919647905662, 9534367169041581251, -510607854400313086,
    );
    lemma_next(
        92,
        3495807145350570624, 6122520303309710238, 16798608826597068749, 955090147307445976, 4140878057064378432,
        4673211311929897574, 3345608728796838475, 12638225379958597144, 11470785582617835095, 14891950540450650404,
        6830759600392793811, 16563528460014241499, 668196309345078894, 3507654909447907599, 4407485572322800347,
        13820523293719467160, 2711573722406718329, 3120870353618696017, 16407682732930237127, 6653181279056018435,
        8175001492100594412, 16559131954788192348, 7202571692023625377, 14857540369461072153, 6059023894080781437,
        63017314462791064623, -29971472066930096907, 20084806689246224692, 11654812142149884550, -16454124532351430203,
        27036921177901220627, 15225683377033221004, 20395939835041418432, 6956949085235150978, 9587476156056770413,
        -2022476949123395042, -7291492209827755989, -4755874400446020564, 2918861189029441458, -16128190149991648996,
    );
    lemma_next(
        93,
        13820523293719467160, 2711573722406718329, 3120870353618696017, 16407682732930237127, 6653181279056018435,
        8175001492100594412, 16559131954788192348, 7202571692023625377, 14857540369461072153, 6059023894080781437,
        13996086559359488304, 16101887102489510158, 2171693142056211489, 1383725519794843205, 10255936283911389295,
        8821264699990460999, 9727342497908513015, 8773210765629371952, 16918066791424236889, 14323118647199351479,
        13791671268616095924, 3285320830468695524, 11085390638017641200, 12470712688929753464, 3711320919789759249,
        14480248412048396013, -89403218649624553760, -27692040921749062053, -37648787269422979033, 2439607952883480945,
        65310179770357634387, 31989785134525991676, 21966455528538064340, 22997168794166486776, 18234295331060445872,
        -29445859227847852197, -13210726159681944111, -12401297992364941386, -18564923296988221104, -4677151863462164448,
    );
    lemma_next(
        94,
        8821264699990460999, 9727342497908513015, 8773210765629371952, 16918066791424236889, 14323118647199351479,
        13791671268616095924, 3285320830468695524, 11085390638017641200, 12470712688929753464, 3711320919789759249,
        8574167879495638580, 14183361175649214756, 7747788533456891358, 17874134033728125892, 9251529753027404997,
        15283946771339685729, 11328917262060164847, 4527658079860423976, 14823257052558032694, 16007811481878057246,
        16388968580436923382, 7181321869713048599, 17631700509320554065, 10263227373013067230, 980749311767694346,
        -157734982391093318292, -150696479511218699538, -190965975381298345993, -107096478624596554117, -55001543531167410608,
        91709037660981627561, 88457259052466405111, 71893874894432559280, 42449953408771563251, 39340664147679471904,
        5681228615535908992, 4640908142413842915, -3717827838366268884, -5231492773780051931, -2182293469664258061,
    );
    lemma_next(
        95,
        15283946771339685729, 11328917262060164847, 4527658079860423976, 14823257052558032694, 16007811481878057246,
        16388968580436923382, 7181321869713048599, 17631700509320554065, 10263227373013067230, 980749311767694346,
        2576900893431280865, 4415963320119223864, 14477881367791154870, 6530121874157016510, 9724597368017436422,
        14014487426336218810, 7106841467915049543, 13989194747185981804, 9272576812448076588, 14355793319311292557,
        15354612259642644078, 7744575832369453423, 1909836473724300169, 7701332759658538167, 2573183717578476631,
        -165956443859108952018, -142205361494780912787, -206286106285768843841, -178109090805946767240, -82306284208163614692,
        45078697120401602205, 53962687032482676463, 25757049431682481960, 24135745590910216816, 17206356435674534471,
        11062239160786900807, -4285315736346862744, 11218250860456056938, 4886164452290547945, -3702478185066083710,
    );
}

proof fn lemma_doublings_9()
    ensures
        doubled(
            108,
            z(15130175342075827821, 8873236545897003836, 12760572814070049601, 17268416008536853559, 1141710513992694109),
            z(5899066073736446544, 13397924655636942867, 8083995419694293844, 15196729235334046106, 10709671294793328814),
        ),
{
    lemma_doublings_8();
    lemma_next(
        96,
        14014487426336218810, 7106841467915049543, 13989194747185981804, 9272576812448076588, 14355793319311292557,
        15354612259642644078, 7744575832369453423, 1909836473724300169, 7701332759658538167, 2573183717578476631,
        9413797107820786150, 15537619980271771955, 3474123245310589167, 13632889293995829973, 17065581462124185561,
        11266571938795516613, 2825458262870261003, 927994767861849930, 9660382241042346589, 10852069769262821958,
        18142248928769941041, 2617481010169450726, 16859823465605703990, 11318748132520288500, 42501531214724737,
        -169234117488416411709, -188878085580090789981, -126935559079190456133, -124180477473675803207, -62523191918042605142,
        106454814529053843183, 65368208641523712320, 92306051833680188105, 67130325458845906708, 41038064954132935307,
        50877466535461710371, 41869038248432987748, 17481016601209028378, 23364804003302077311, 9627519409441730182,
    );
    lemma_next(
        97,
        11266571938795516613, 2825458262870261003, 927994767861849930, 9660382241042346589, 10852069769262821958,
        18142248928769941041, 2617481010169450726, 16859823465605703990, 11318748132520288500, 42501531214724737,
        10238602967118771077, 1757708438537897480, 2318609147636951866, 11321289125429037257, 3969758645674255908,
        6693529825002762882, 6592647805236956823, 7412316091573246091, 1505078964139000099, 5832512859358154080,
        17229349079694341686, 14176097791957040033, 2824460596556623925, 16375645043982899642, 11792642041599476907,
        34852612994626277484, 4132048632541523030, -68448811872950038157, -54952358057519615956, -31322437161325167268,
        16490331647252292873, 25789571889836807686, 17359425981201775869, 15572189684270521293, 6855657782322055472,
        -7322697773331118791, 11066698525536586331, 11123827942914802392, 9482364231996940887, 1420181268461228264,
    );
    lemma_next(
        98,
        6693529825002762882, 6592647805236956823, 7412316091573246091, 1505078964139000099, 5832512859358154080,
        17229349079694341686, 14176097791957040033, 2824460596556623925, 16375645043982899642, 11792642041599476907,
        14778121565645321944, 7647374725173651332, 17331481796235735758, 12965343979229385028, 18288401646546137350,
        15663673585120635639, 7068679447231798038, 12439733390241264860, 10998413141728811628, 12162963444359792508,
        12692915772439430209, 14491151932648443648, 17833475791798412352, 15449751824207709235, 4253195506158920207,
        189796924528948682735, 131692583667985110132, 164024251136645560345, 113817240504343340494, 67009094864957960947,
        130418363804337158437, 142687440753995460004, 108063966819713285966, 89537992653258031850, 56336142063368848328,
        -53833926327697820723, -56913267577147682963, -54236411001298662881, -35269800996388017287, -22958271001855644326,
    );
    lemma_next(
        99,
        15663673585120635639, 7068679447231798038, 12439733390241264860, 10998413141728811628, 12162963444359792508,
        12692915772439430209, 14491151932648443648, 17833475791798412352, 15449751824207709235, 4253195506158920207,
        5359912374244277407, 5014481036065902754, 12071053296472974045, 7850627648857332471, 15422527474884083245,
        18295614855745246693, 7986710733473637924, 8869865813867678255, 15077331539397009012, 10375388485846771976,
        18115662167746979668, 4116528251029951112, 8893865493968714107, 9027293593148667684, 13874853898644506933,
        -64096330543124430598, -81740135598925186527, -78821825489017639050, -87034637732478507934, -44652186570963626032,
        57535170138025095468, 73489843136916501749, 47759307348291302821, 49807193395523677941, 21129515586160955211,
        -5059115097235616136, 6273100781108550825, -8882896233561459982, 2547938223286979999, -844520872363250503,
    );
    lemma_next(
        100,
        18295614855745246693, 7986710733473637924, 8869865813867678255, 15077331539397009012, 10375388485846771976,
        18115662167746979668, 4116528251029951112, 8893865493968714107, 9027293593148667684, 13874853898644506933,
        4808599314355787089, 14915423451009132228, 12193427856931085057, 15055628901933725856, 3467959619888141111,
        6132305396310707964, 13722760642122306795, 17932882314119719648, 5725355901197856445, 9398178434201945212,
        15322772221698026957, 114545822230067409, 8131934397522075564, 1065225088263864919, 4575559261656943457,
        -105034311536541589018, -107528754630283089475, -102430778390897945292, -95532893052830582014, -66583721844321171195,
        77789201636605590851, 58393956322029992991, 35399762171263747508, 29523556187863937174, 34214921495911154499,
        -1339667330303029718, 28064262327205954243, 8706727044448235480, 1796637518566075645, -569180242809790256,
    );
    lemma_next(
        101,
        6132305396310707964, 13722760642122306795, 17932882314119719648, 5725355901197856445, 9398178434201945212,
        15322772221698026957, 114545822230067409, 8131934397522075564, 1065225088263864919, 4575559261656943457,
        14292373358085018478, 1916889406086888680, 4787938483724215689, 17505034407686324701, 14092289129750266372,
        17593741191337722754, 2820832116317731341, 15060054150103789613, 7566188082375110288, 9936817662013029388,
        4047534304955455182, 17962227941326909348, 10950113554378820050, 7950988675374519447, 279888254877421118,
        -157065497847857912417, -153992289974557630572, -67385676906612135267, -81101980507533457752, -61438721137492184820,
        47121066935978875176, 74750891674896449200, 87855748653670919367, 60417746702074268770, 26717956215623739981,
        22682389030590548109, 8179757698184734014, -5368461653520516590, -10408883554196203520, 1726515348012664226,
    );
    lemma_next(
        102,
        17593741191337722754, 2820832116317731341, 15060054150103789613, 7566188082375110288, 9936817662013029388,
        4047534304955455182, 17962227941326909348, 10950113554378820050, 7950988675374519447, 279888254877421118,
        3051243226143365827, 16659882225818062410, 4449728640648388791, 2846677903064389855, 4123774748307607961,
        8449802098333202974, 9286272002509689645, 13607582920496126689, 15655444606730467614, 10317514487736535765,
        6743000999339276897, 623270861360648528, 14900017789468189364, 12205876276380707811, 10164199417517890073,
        -140284531483180023285, -154390012154556989565, -111895432503956072401, -72590611295129145444, -73600924317423457851,
        26970686985430570297, 12797678634969331314, 20336403748635950749, 11744743529083490203, 7579440641822484454,
        -9036478159257310619, 4142400136105362357, -8994517126412003909, -430082244647787475, -5971895966143024966,
    );
    lemma_next(
        103,
        8449802098333202974, 9286272002509689645, 13607582920496126689, 15655444606730467614, 10317514487736535765,
        6743000999339276897, 623270861360648528, 14900017789468189364, 12205876276380707811, 10164199417517890073,
        12981244062026688117, 3726914449369064665, 22644171914540776, 3533565558014336794, 2531282712311529161,
        15129183946266686709, 8081397901373323696, 8671837773069200156, 2221396751711334898, 7015261762334165856,
        15033229819007664336, 4173051928480634136, 7068093124026702409, 16440417310707942948, 16067765008944019867,
        -273436457617984975977, -252124328472298565179, -166066206884817599653, -101912018506505798727, -84393437143127476265,
        12229585299199965166, 7294628314271641388, 3694121334357277599, 6024429878209086553, 4990447248632851204,
        683021945673646888, 9262511327151379457, 11136579116529699699, 10532363248510418459, 4358317057544608892,
    );
    lemma_next(
        104,
        15129183946266686709, 8081397901373323696, 8671837773069200156, 2221396751711334898, 7015261762334165856,
        15033229819007664336, 4173051928480634136, 7068093124026702409, 16440417310707942948, 16067765008944019867,
        10168423526528507816, 13035270954722021610, 9143308285535213631, 14247250848915457263, 7384671305484789534,
        6394457878162530304, 3670920700944208609, 6460235503284351175, 9382387863950540591, 6246269057021447964,
        11011886746565477531, 10562965081950346512, 8041295975507584907, 5550581529896247780, 4004197445943946790,
        65027244971591945772, 65257539255093035023, 74039869295022411862, 36329750764027088580, 13847666650543672846,
        79285863140970419652, 69343984778234052750, 53512529607746867617, 37497960158019707477, 32808747459968383473,
        6218038292333500067, -4189189652788242465, 1846828153812814967, 7471307946106356790, 3362956692116785407,
    );
    lemma_next(
        105,
        6394457878162530304, 3670920700944208609, 6460235503284351175, 9382387863950540591, 6246269057021447964,
        11011886746565477531, 10562965081950346512, 8041295975507584907, 5550581529896247780, 4004197445943946790,
        774758007185989820, 9681689691478807282, 10225934752283592732, 4153938751658608194, 16491119900004224198,
        12311147472486107610, 15664109549099926048, 9801425118217131917, 11381923736452415318, 12317137545159151028,
        14710013065174781031, 11692778601914471581, 11657473330817559235, 15226038228264751716, 2504491734003794462,
        11351199601090539899, -13561821117786127168, -13658468589146872483, 792698089779453046, 8542952789277044575,
        65780666683567158926, 58470494693219952778, 28221727099857286929, 55311460472470221720, 11414333452427163324,
        -47554994036263696968, -24016921875739139451, -19178692549606029098, -26100156693987617248, -11146733291429476164,
    );
    lemma_next(
        106,
        12311147472486107610, 15664109549099926048, 9801425118217131917, 11381923736452415318, 12317137545159151028,
        14710013065174781031, 11692778601914471581, 11657473330817559235, 15226038228264751716, 2504491734003794462,
        5015508309021898633, 14165120570044881541, 16963241492140839386, 4599872195952954115, 15429417816212097527,
        6590637013267954138, 12386049739316152494, 4893616111208308573, 6093205584037097572, 2778003843738589262,
        6777875875534411107, 3534788149732903703, 7179155487139279127, 105619983093431207, 6198228376504332558,
        -142100717785202907453, -119678685899394230997, -84438350932251850388, -101940252190290091800, -46310456142464383643,
        97832178747531289353, 96275237993566164363, 43186444997822128980, 67270132561096383901, 31053707625107952490,
        50017670153572554518, 47871479596347429972, 29519007882446168352, 33583991270446940089, 16770118619436625242,
    );
    lemma_next(
        107,
        6590637013267954138, 12386049739316152494, 4893616111208308573, 6093205584037097572, 2778003843738589262,
        6777875875534411107, 3534788149732903703, 7179155487139279127, 105619983093431207, 6198228376504332558,
        2942394498488926822, 10093514925861556116, 2563751576715610371, 17569934518875024830, 11036206894267887721,
        15130175342075827821, 8873236545897003836, 12760572814070049601, 17268416008536853559, 1141710513992694109,
        5899066073736446544, 13397924655636942867, 8083995419694293844, 15196729235334046106, 10709671294793328814,
        6580416843952493853, -17843126821375032733, -8113795534359972824, 7491590294257818502, -15465340296058936207,
        51352806752594073623, 62627342536915633606, 69410556715287482253, 28218718318328964372, 23104530646082022252,
        -19509761109445566230, -49481900692208440987, -15901527906348767003, -10795664293896672348, -8710245491947536909,
    );
}

proof fn lemma_doublings_10()
    ensures
        doubled(
            120,
            z(3627844318916978879, 12632194847764643206, 17108593230282268980, 9270794413627613105, 5519766102663407736),
            z(6346958129629297823, 12053603446995219313, 4373034170859421495, 8781642230486668789, 6123134642973502320),
        ),
{
    lemma_doublings_9();
    lemma_next(
        108,
        15130175342075827821, 8873236545897003836, 12760572814070049601, 17268416008536853559, 1141710513992694109,
        5899066073736446544, 13397924655636942867, 8083995419694293844, 15196729235334046106, 10709671294793328814,
        13572491357268334172, 6853401771925617318, 9487458688580156770, 3290950501821334260, 15245218198497483244,
        4494619788491937666, 7444770412706653401, 14572631043740988537, 7218950284545315321, 10037757823687622182,
        230985237539484538, 3733872240994839445, 11785786772572749259, 12645081928755433042, 9042145784405508834,
        -107594619820564485960, -89871275091594062162, 19897866583092567360, -25085297276325246175, -32040792291868575137,
        54125470162595133268, 58891520438668816319, 32826040550003973305, 49690371220594195649, 29758718762529783476,
        15987631751108550536, -7837906269897816864, 24822247169282776741, -12703348744076148726, 5300775542082361080,
    );
    lemma_next(
        109,
        4494619788491937666, 7444770412706653401, 14572631043740988537, 7218950284545315321, 10037757823687622182,
        230985237539484538, 3733872240994839445, 11785786772572749259, 12645081928755433042, 9042145784405508834,
        15064581636324364455, 1933508190440981896, 16417508879251216922, 17347460720209860603, 4615761217887533225,
        6827157142675047026, 15528766243065208383, 14492972423469708127, 17843306050398387336, 9894512445798940160,
        6026943379886381599, 17260327734012291116, 15142780580290655626, 16386306182823182195, 11234701249450370015,
        -33161190512905859169, -35568013742098416900, -10577088807501487497, -51219421237348615038, -21155192844807876935,
        107840268588877731103, 76747092257806385862, 53061650029913257485, 35240203072687662931, 25787018790055781766,
        -36070318039866212531, -36377721909312618584, -10429403562453927774, -17948780934053218216, -9111623495848975805,
    );
    lemma_next(
        110,
        6827157142675047026, 15528766243065208383, 14492972423469708127, 17843306050398387336, 9894512445798940160,
        6026943379886381599, 17260327734012291116, 15142780580290655626, 16386306182823182195, 11234701249450370015,
        2287518244755579301, 10965671044074073472, 16711619850942317432, 2722526133475091774, 6246859607033639315,
        10105325664296036417, 13363334907292449496, 9983360252565925029, 10737114269494400353, 5400436892168929701,
        18045916494733428552, 422121909265664408, 8827569134882656255, 13578864775668571714, 10045758675049517395,
        -230732938884039945781, -211955262320830684707, -165235553236737290017, -82643443392287720662, -87374676969018395603,
        37363000909177808020, 37880703839182922790, 16195033775790856425, 26890039303727752886, 19925819932420842009,
        31117944962238820121, 18261711244381400791, 8085848793803135262, 9605543897218869335, 8076468663605924154,
    );
    lemma_next(
        111,
        10105325664296036417, 13363334907292449496, 9983360252565925029, 10737114269494400353, 5400436892168929701,
        18045916494733428552, 422121909265664408, 8827569134882656255, 13578864775668571714, 10045758675049517395,
        16315858453690015350, 4213081151478836115, 4298052073445713427, 11621547689916198501, 4826016658108103918,
        16928114955845491533, 5380405892204849867, 13737863944202153998, 3396670520867746458, 11589979751770779669,
        2158506517662881578, 10910993523916197241, 1146398376432657372, 16305968292181558166, 5195472712721330114,
        -92920938811980374928, -64560161164948174004, -34931043210823347330, -26157399239278902313, -42568023123733858175,
        37291227995468306315, 36164431320926729360, 26807851071666015737, 26309165841253611358, 14847037884839222128,
        -5975263735937293216, 12102867621523497672, -9024401119402584888, -1661280971605021070, -1428532687862993986,
    );
    lemma_next(
        112,
        16928114955845491533, 5380405892204849867, 13737863944202153998, 3396670520867746458, 11589979751770779669,
        2158506517662881578, 10910993523916197241, 1146398376432657372, 16305968292181558166, 5195472712721330114,
        3944348976662375010, 17386894766425619406, 14920147942872263505, 9494334739290481082, 13978266086044145038,
        2796601064859342908, 5900612612324279809, 1046071313171398629, 5504150497712102025, 7522103428386888750,
        2558356086681429965, 11294339231911824069, 744875538584579024, 16858673460415775734, 1592362201539184522,
        9599648051682695304, -101103753872833639217, -4032382578697495779, -55653270529230500831, -51135000832785945426,
        125969710557734725474, 89930988323620831009, 65935249567987663567, 63962712729535084371, 35943206518437244761,
        27824786485543183830, 48676970679008957009, 15143536845879134143, 27612003476352475550, 19589422297041736443,
    );
    lemma_next(
        113,
        2796601064859342908, 5900612612324279809, 1046071313171398629, 5504150497712102025, 7522103428386888750,
        2558356086681429965, 11294339231911824069, 744875538584579024, 16858673460415775734, 1592362201539184522,
        6278184232459771722, 6638702583494112118, 5516577423093788146, 5642136494383474928, 4933190182821282048,
        14451406105479118015, 15324050312888930755, 13293968586543741400, 899828749146756860, 1111009805915960276,
        327211503256798888, 10540650446690899641, 526362023691254865, 5356861777892257370, 18243887899509952649,
        4719014013360407583, 16693732876749363812, -6874230351256935287, -11733395428124541342, 4357098655315678911,
        22912834208203827565, 18547720977855137139, 15197421502253845674, 11768996938269279690, 9068728428274056660,
        -11712768629339144049, -7251250587703759400, -1468541525368151425, -4080127037474935748, -5822892926556104103,
    );
    lemma_next(
        114,
        14451406105479118015, 15324050312888930755, 13293968586543741400, 899828749146756860, 1111009805915960276,
        327211503256798888, 10540650446690899641, 526362023691254865, 5356861777892257370, 18243887899509952649,
        8695550688007708749, 3057629831345213879, 13087254360647180600, 10891712461958998057, 5034277860350668156,
        5330638994228650562, 18343338071550581312, 13387090962911780621, 3190481689149830052, 5886286818213233486,
        1291511313063831230, 9466528792851334790, 18017775922451357651, 6027088497234333214, 16036907796769796596,
        -1869702789314629938, 20707915422883839209, -23795289730864324349, -20652044720029852798, -6100462197089533688,
        55469193662795064593, 43605147753224210627, 30679794050749329132, 18728654427956687182, 17641786104708254336,
        -5587471439253476298, -14208797234628144457, -4407498569196715734, -1761657801485418110, -1990328826053647704,
    );
    lemma_next(
        115,
        5330638994228650562, 18343338071550581312, 13387090962911780621, 3190481689149830052, 5886286818213233486,
        1291511313063831230, 9466528792851334790, 18017775922451357651, 6027088497234333214, 16036907796769796596,
        8100046655283009879, 6599411645194271872, 4798406095194098236, 3342040615917229334, 10318151587006717318,
        2920246508773306709, 11543595648512045741, 4057423997470507653, 7092030412127240184, 17207897123276935052,
        3395330210654905995, 7756361136150875158, 2318905398307087117, 17432794876690300655, 16822688686626712297,
        -55336339747934751483, -12374829050278620811, -35329201156649492746, -24909622187100116456, -25742373853447469043,
        30921009175562073768, 23715994434218130927, 17791158668526901569, 23682631407742123040, 12700925550527122172,
        2343798030382525720, 8548159065637259817, -5544126294946079616, -15168158226102693667, -1360140110821753695,
    );
    lemma_next(
        116,
        2920246508773306709, 11543595648512045741, 4057423997470507653, 7092030412127240184, 17207897123276935052,
        3395330210654905995, 7756361136150875158, 2318905398307087117, 17432794876690300655, 16822688686626712297,
        3903641003316707332, 716634034514240216, 3950650087822354607, 72953508961838982, 2781984200519361067,
        17025325841356309891, 3253238439335770735, 4614105491882750009, 2825148911761137217, 5785790752058133504,
        14801754016372801116, 2800574201864030796, 13191835962765362361, 6439932774649210873, 5386510047590624957,
        -188462911230908324772, -75957287683134957189, -125396523993342707901, -140311054973292058260, -35097258105160994731,
        1568281267570823471, 3878993882810333633, 1765901701559403393, 1596499490946292474, 2029189167580321793,
        4832029119951764386, 8343827454208811660, -750545811653407913, 7768800820661635566, 369227450522220960,
    );
    lemma_next(
        117,
        17025325841356309891, 3253238439335770735, 4614105491882750009, 2825148911761137217, 5785790752058133504,
        14801754016372801116, 2800574201864030796, 13191835962765362361, 6439932774649210873, 5386510047590624957,
        11061590478522984051, 872620831239524179, 6128895064983056965, 10505968663497141585, 10143764229257590799,
        5212219870503525014, 592431835933499293, 12860319729610454717, 13906689216720976403, 14529574661760071692,
        3421195969365855112, 1033437163766464209, 7924079369067893231, 10664106426959995566, 15513742514381162440,
        8210644795322445138, 33069015563902344952, 22353554248309977609, 8605121698411752306, -3187544408197554511,
        30455706362581973561, 39218394187045374780, 42054713477899936306, 29913664168799939986, 15195697382068119693,
        -14902505072866383433, -39098389867669754926, -34114661974475560779, -13847647033652654158, -495838663321690686,
    );
    lemma_next(
        118,
        5212219870503525014, 592431835933499293, 12860319729610454717, 13906689216720976403, 14529574661760071692,
        3421195969365855112, 1033437163766464209, 7924079369067893231, 10664106426959995566, 15513742514381162440,
        6953771696329739468, 3991441500367003784, 12958296415008084422, 17589548320536031090, 10292983022489592957,
        597104352605597349, 2863120169004642552, 14596451209838352880, 6946330313523538555, 14765523181660424651,
        13994545219814975600, 14735500329968754548, 7430412776974624075, 1394903677814661004, 17847749291308085557,
        -70868222462179208711, -122502481026502815826, -83336965225454090715, -57668494654330482614, -20976416147730137709,
        90121132369043801655, 96708932455202780910, 69521385645669979234, 36098970457494175882, 24474934903637832601,
        7487529582275771629, 16649953716863697004, 13072547478024424622, 4658750713189694965, 607519158011085892,
    );
    lemma_next(
        119,
        597104352605597349, 2863120169004642552, 14596451209838352880, 6946330313523538555, 14765523181660424651,
        13994545219814975600, 14735500329968754548, 7430412776974624075, 1394903677814661004, 17847749291308085557,
        9278042780754147419, 17533710751055456904, 12332055804892976297, 409630422106042981, 8439775123258187804,
        3627844318916978879, 12632194847764643206, 17108593230282268980, 9270794413627613105, 5519766102663407736,
        6346958129629297823, 12053603446995219313, 4373034170859421495, 8781642230486668789, 6123134642973502320,
        22653759060858933320, -100802635550961442194, -43844989134780501690, -36466165471492112867, 14139763335677570,
        54441859240968570782, 51517985579675877293, 30195509036601804186, 35439530466320515047, 17512763831844888251,
        6602149551770296309, 7145830761403021048, -15149718396857652931, 2535321425264867689, -842116145131266966,
    );
}

proof fn lemma_doublings_11()
    ensures
        doubled(
            132,
            z(9700272020609243136, 12840472124805576075, 11512480779210803054, 4419508759173366918, 8641499366860072838),
            z(16888382657218670772, 8590781863750151440, 11726163677227284103, 2413696363268708055, 15845597707628333942),
        ),
{
    lemma_doublings_10();
    lemma_next(
        120,
        3627844318916978879, 12632194847764643206, 17108593230282268980, 9270794413627613105, 5519766102663407736,
        6346958129629297823, 12053603446995219313, 4373034170859421495, 8781642230486668789, 6123134642973502320,
        3126122022065578720, 10649578456934567026, 13227169336494192688, 5996217307797257597, 11620813274137269675,
        468619688803470413, 4008249455478036015, 12346756237426307488, 7849192769503264667, 3696962417042238810,
        15773790618474302911, 52081643705697029, 13218334621403517136, 16405928862620126740, 12416453791285294611,
        -109716423256293934118, -77573896798554667388, -26435979438788285974, -43517464355117238184, -57888132853124652844,
        66580373246626799545, 59452790985158523840, 33295769693251827638, 39266944340187945774, 20346601067026144586,
        27692393564404541433, 17592127193632781596, 12515235622783375519, 13645596381152660023, 9337539391048662250,
    );
    lemma_next(
        121,
        468619688803470413, 4008249455478036015, 12346756237426307488, 7849192769503264667, 3696962417042238810,
        15773790618474302911, 52081643705697029, 13218334621403517136, 16405928862620126740, 12416453791285294611,
        3537757720106860888, 17136260578208266881, 3988270793229540154, 4403608796681889945, 8492237590082646753,
        1688454116074722108, 13237626358648853989, 3665723507044112804, 4289493368560753777, 17445787495311094089,
        5051845090743858807, 6654281678112960363, 17153687479086080575, 2509171931633408101, 4172700676923687025,
        6555227613015049610, 30233570760611118944, 42278053937909503153, 48740025474869793126, 19918912395180995078,
        53724581935048610988, 20742915122016962204, 29612242087665206995, 20827534310963754304, 12301143058401212425,
        -42770976596864665901, 2717766101021090529, -12102653356899358738, -12528064656945921869, -217895111206029887,
    );
    lemma_next(
        122,
        1688454116074722108, 13237626358648853989, 3665723507044112804, 4289493368560753777, 17445787495311094089,
        5051845090743858807, 6654281678112960363, 17153687479086080575, 2509171931633408101, 4172700676923687025,
        4735232226946832052, 7275973222734711968, 3820519225901919571, 16671532127640501320, 8724256697703355222,
        5836145808726759399, 43201820184303230, 2939318473930399307, 3922665031904884992, 10077831066482807586,
        333792598733770393, 3372150321875316242, 4102985498069522091, 14467410343124182337, 14072842691016125665,
        -113668052825178293523, -3780408706757427530, -57637379316843168615, -128082961116893250971, -2202191157427140144,
        42579363822979323585, 59778242422859730116, 52139403528140514373, 23951170282174547402, 18421807745818715685,
        28571806185944371619, 8354169750521938696, 25028911293795075939, 9818715282860654345, 12149515762995211291,
    );
    lemma_next(
        123,
        5836145808726759399, 43201820184303230, 2939318473930399307, 3922665031904884992, 10077831066482807586,
        333792598733770393, 3372150321875316242, 4102985498069522091, 14467410343124182337, 14072842691016125665,
        17111119968691352552, 2778825099879047986, 366160371133140461, 11361829537870165662, 1204191811198351874,
        3390343287896295702, 3621494080717713600, 10550552697423222234, 8488022057172298840, 1292060175981149691,
        2069454709917662910, 14681251309831110801, 5471502316599742398, 3186498293438296543, 5136484721879835708,
        14330667925303372180, 26610855568884103787, 22160070256766344808, -22906071704955035336, 14236413446202617967,
        18313766712103464280, 26292807703780034700, 5548059276232697420, 21424511561482308264, 5664375692448547458,
        -8797306649994047695, -12353925936649304218, 7789448488941421758, -2225370380758563584, 5266533052444914830,
    );
    lemma_next(
        124,
        3390343287896295702, 3621494080717713600, 10550552697423222234, 8488022057172298840, 1292060175981149691,
        2069454709917662910, 14681251309831110801, 5471502316599742398, 3186498293438296543, 5136484721879835708,
        15774667288110147991, 8706448284989134256, 15946588753405404637, 8578009849461033020, 14841313140771878375,
        2427551882129815440, 12983283726749815191, 2052697687976174649, 4831367923034343515, 10246486769470610664,
        10673468795584142360, 7347977872734334363, 12115218532716373736, 10998991014206726404, 13493254078386829412,
        26929912633500326373, 36561548546347882423, 32038738055685701070, 40115145466786201427, 8710455348025362424,
        100010649332436739837, 103836173198733193531, 72791170215180524193, 65545471115299193584, 47265535950566934253,
        -13113548129228059952, -5161662728990715631, 14707486675449964, -22120298491015089084, -2164136171197403128,
    );
    lemma_next(
        125,
        2427551882129815440, 12983283726749815191, 2052697687976174649, 4831367923034343515, 10246486769470610664,
        10673468795584142360, 7347977872734334363, 12115218532716373736, 10998991014206726404, 13493254078386829412,
        8656789927455740882, 14823827755718050982, 2958434235552360519, 7847746743596526292, 16766651750655850245,
        4901960756094151599, 3110661820468915730, 9716084750116059506, 14048361020140563120, 15946534875780715756,
        5734727465544954075, 8982644478528461592, 1656212109636459804, 12984708550446364683, 9930343221790307423,
        16211411224191128861, 89018023895011935052, 43689660327890983497, 51112159723901194696, 30704372127061704311,
        92456316779290184113, 40063066360456425498, 57487086761048622356, 57839207708618024649, 28824077956786987545,
        -2197794792819418547, -32757572619644790410, -28466953380998399500, -25495745877509681860, -9359731917340098415,
    );
    lemma_next(
        126,
        4901960756094151599, 3110661820468915730, 9716084750116059506, 14048361020140563120, 15946534875780715756,
        5734727465544954075, 8982644478528461592, 1656212109636459804, 12984708550446364683, 9930343221790307423,
        442970738457914093, 5113635408037978127, 14140989992808321091, 980830452639150924, 10804378996745409809,
        10954789784613255146, 14313455728435297792, 2656338089276480805, 15767525789642267884, 11228204996516105816,
        3797900674567425369, 5929433203500579744, 14965481066071991161, 12950671149316052947, 8786327847783329162,
        -76889250490169200824, -193185373273262353283, -173010976492845267708, -105474962909223470064, -37103718933878934358,
        22492513215557600627, 50096871024379002372, 5543576682800587054, 26871761612473926057, 11902960397769707963,
        -18733620096323275969, 21034660793474330008, -9844155409285149651, 1296700809695866055, 907781167604168747,
    );
    lemma_next(
        127,
        10954789784613255146, 14313455728435297792, 2656338089276480805, 15767525789642267884, 11228204996516105816,
        3797900674567425369, 5929433203500579744, 14965481066071991161, 12950671149316052947, 8786327847783329162,
        9713895404063787680, 6254111270429082476, 6215069592115285340, 10875033835288944605, 16597191206155701157,
        17493975179753259740, 10473639086998413500, 11453271124789950459, 15985975948490785956, 9994318130406259684,
        5591469491390451829, 5198673016982209359, 13026030665366515410, 13623492569589302285, 18228970713247452180,
        -84209683177818323613, -48220723064870165639, -92203881433871819822, -50365971257453141602, -72617935604765370929,
        60861602231444901760, 59371932215615851111, 67373899189253544177, 60466910558968696943, 26947909629531480884,
        -7603170197432219740, -23078936504314519241, -3941109162440285871, -2328376537570056534, -6007991907796961772,
    );
    lemma_next(
        128,
        17493975179753259740, 10473639086998413500, 11453271124789950459, 15985975948490785956, 9994318130406259684,
        5591469491390451829, 5198673016982209359, 13026030665366515410, 13623492569589302285, 18228970713247452180,
        12754521726902051116, 6466031036454728264, 15681813906038179781, 11320481185174140575, 12082796876390777519,
        7057367473898838944, 11806816731008734907, 2872680280659597321, 6958066168785807381, 4168142961958663490,
        9356851504002488177, 1922825865606364979, 17375337575073538861, 10238672018070739289, 18050679646381331918,
        -146616961194986721487, -90527583418743434425, -87083548144589703932, -63399200301935146396, -62049500635070720271,
        91972780204112699818, 91413594486316695250, 68442217943604633119, 50391265520340435198, 37976189223026429991,
        49544588230566605874, 51077188692550260037, 42804216321190658090, 25969856098958090369, 20505258193621107723,
    );
    lemma_next(
        129,
        7057367473898838944, 11806816731008734907, 2872680280659597321, 6958066168785807381, 4168142961958663490,
        9356851504002488177, 1922825865606364979, 17375337575073538861, 10238672018070739289, 18050679646381331918,
        4076823531934940826, 14230348260921439150, 18293958908763204633, 9265449838781678140, 7213758707409363889,
        8702082326053676998, 15654276973175559567, 10875299760174625664, 8386229750766992025, 5655447581655099648,
        10595167430370012385, 7412475116965817990, 4916738911605859591, 14051592702597291227, 17729625282359215340,
        129858434524218441207, 131910838948332681206, 50063193466961175409, 51419453847067937388, 29857009609856218443,
        89422655168560506010, 63175601466666212921, 40803819354417188270, 40783401222134365836, 35626261663662269809,
        -24626983160193151662, -18084545493523573092, -10284375023423121660, -12875654624230910516, -11942452319827705171,
    );
    lemma_next(
        130,
        8702082326053676998, 15654276973175559567, 10875299760174625664, 8386229750766992025, 5655447581655099648,
        10595167430370012385, 7412475116965817990, 4916738911605859591, 14051592702597291227, 17729625282359215340,
        8303494454749639528, 16376618321685656191, 929692599869726776, 849618941494479923, 17537310682867847614,
        13713306908089172690, 6324638654357134153, 11977062823056662016, 14599920442465666096, 950159133852273728,
        2672357786136436766, 35838429744395306, 2252522269520380046, 3812483997520287049, 4417998235204102359,
        -35828890186538307229, -75860545954527942860, -13206605084144704315, 29521053082557354260, -15707576818412877136,
        97410056794140033630, 20163868608019913380, 20222170860069664925, 52433743775619658922, 17343658121272709882,
        35793365766900087845, -3538759348843676019, -9537760228900896753, 9884231082431581552, -7788364693639005858,
    );
    lemma_next(
        131,
        13713306908089172690, 6324638654357134153, 11977062823056662016, 14599920442465666096, 950159133852273728,
        2672357786136436766, 35838429744395306, 2252522269520380046, 3812483997520287049, 4417998235204102359,
        14938339424603506279, 2410174332618593028, 5401040885622049269, 5108605683174955488, 15674446619382817024,
        9700272020609243136, 12840472124805576075, 11512480779210803054, 4419508759173366918, 8641499366860072838,
        16888382657218670772, 8590781863750151440, 11726163677227284103, 2413696363268708055, 15845597707628333942,
        -188661826997250552401, -116976045329021693125, -41463493880832133811, -59411914736918492206, -43569650800037895818,
        33359470102113668109, 35683886566241131291, 35107632238524453832, 49641709052455940866, 28302930265415909747,
        -7046556715253027142, -1865804670401694266, 20261095344215555035, -12097831797403135452, -3156913764064498389,
    );
}

proof fn lemma_doublings_12()
    ensures
        doubled(
            144,
            z(8943620009288474998, 3639500045243271559, 18130981172028096592, 16088792925209970078, 14448677740019310510),
            z(10070831263777089580, 6360301108150620073, 10744682940454261432, 17391190269136499986, 1556280990880483362),
        ),
{
    lemma_doublings_11();
    lemma_next(
        132,
        9700272020609243136, 12840472124805576075, 11512480779210803054, 4419508759173366918, 8641499366860072838,
        16888382657218670772, 8590781863750151440, 11726163677227284103, 2413696363268708055, 15845597707628333942,
        7043853590398684956, 12688790271130882721, 7338259410256704559, 16388619266722746192, 14675224599155534009,
        11632568129464507220, 17856925248962368962, 7132446649746926335, 59774558908708406, 14328916491600733663,
        4940651833230901847, 18319498439871607032, 3701591170301921464, 9129058088581289707, 5580192015009856375,
        14345691590050413039, -10664424146634889301, 29794151457204191815, 31994388967293912378, -390723827795677792,
        102373870768203863026, 88398262054550351658, 92559676307287908494, 57635753261235763823, 36672803667121456334,
        -7569690983450424899, 12041319410230409152, -7300290930837717022, -12608480170967772287, -3424418609287855324,
    );
    lemma_next(
        133,
        11632568129464507220, 17856925248962368962, 7132446649746926335, 59774558908708406, 14328916491600733663,
        4940651833230901847, 18319498439871607032, 3701591170301921464, 9129058088581289707, 5580192015009856375,
        3398507871982415196, 1565596548788819575, 14619173457012831338, 761803462978205898, 5102824207376567894,
        9271775481763514166, 10350972502221926350, 10966902358813988990, 18253612510179591299, 11096762991653458733,
        6868076654022720263, 232533119327593154, 11705798004817743852, 8800755216583687868, 12340258304962614604,
        -192702261446748282237, -124762082808068403091, -50840970411699195868, -99126727709810006413, -49116317296294961245,
        6847021939595449574, 24935395073420200970, 6783958141698812973, 6996892749259007353, 13595329443707021973,
        -36244408842825169084, 3831531434871079104, -12896604900542527150, 5050945905110478780, -3024463994304150672,
    );
    lemma_next(
        134,
        9271775481763514166, 10350972502221926350, 10966902358813988990, 18253612510179591299, 11096762991653458733,
        6868076654022720263, 232533119327593154, 11705798004817743852, 8800755216583687868, 12340258304962614604,
        15432140735513361644, 6834549425179201227, 11705100597005093354, 13077344742003633989, 13499416122027626819,
        6936552187318303307, 16092789758801231128, 13681939348455212976, 15538290129897483660, 10805381255658056946,
        17875926793666992554, 9774578848882198647, 5821311237202148481, 2427782512197749567, 2527101551268379324,
        -198156328004121283759, -171235416969828860802, -128542045364455408522, -64433154088878145191, -62074710243852117382,
        92707706894451694091, 90642903140687599827, 79537054911042096151, 60190770189772472413, 39704279199266387342,
        -10933567282776478184, -3569356027518616535, 3664047972745796415, -82529252292017383, -2834576369732884972,
    );
    lemma_next(
        135,
        6936552187318303307, 16092789758801231128, 13681939348455212976, 15538290129897483660, 10805381255658056946,
        17875926793666992554, 9774578848882198647, 5821311237202148481, 2427782512197749567, 2527101551268379324,
        1626785137253099550, 15358468016465097304, 16177670109072681246, 1267487462138137618, 655233056746722712,
        2391029867431930792, 16331932600384114124, 4088842631883030404, 4455997369774838868, 12104666978223045430,
        13688106448773361724, 14360942545793846112, 3498353544769254480, 16229063532709866003, 10065877867142780474,
        -351912875282502515850, -251332733325518131183, -186601244271300787884, -133376441461871039228, -118843455055679387884,
        10086151194706883950, 6417950689536563024, 15910706159917551236, 27231922696928124972, 16413855318421827178,
        28264815030299097452, 3651707918448859489, 5546397144566788601, 8928534559373452188, 17670467965093491354,
    );
    lemma_next(
        136,
        2391029867431930792, 16331932600384114124, 4088842631883030404, 4455997369774838868, 12104666978223045430,
        13688106448773361724, 14360942545793846112, 3498353544769254480, 16229063532709866003, 10065877867142780474,
        18434065474056566341, 13385478138023792825, 10057170283543234809, 14154288198514140867, 14777138900972089148,
        11632757374389012791, 11247676913489685939, 10912491543344657493, 15417210447650638010, 18334345602252214373,
        2911406239120929895, 16927241319787183292, 10594911640884657865, 8095216041171078806, 17432846730372251455,
        -2212228721455655321, 102340652928206475459, 67913450384483907588, 25885600294101146418, 55650078296733700170,
        129059182427047862844, 107673548780496197682, 97844876347598054598, 78397234414680936910, 55558639116805613454,
        -44213768542803355066, -53445029747851086053, -48850579036175882131, -35195633918918139096, -21401514002575155100,
    );
    lemma_next(
        137,
        11632757374389012791, 11247676913489685939, 10912491543344657493, 15417210447650638010, 18334345602252214373,
        2911406239120929895, 16927241319787183292, 10594911640884657865, 8095216041171078806, 17432846730372251455,
        5175096423134830965, 7311815370177434090, 7880045111994891732, 8586041416961449446, 9005812103433846440,
        3251594987480398181, 17082500259579995284, 14956854233401818489, 14676379980423024808, 8177911766121276026,
        9072374833093297525, 13756007206828375334, 3017048689849014342, 365269116500152525, 12135473424279250447,
        -244383565104376782726, -243622847068613256823, -243434033127171760051, -181081745212521936875, -101289501278926165371,
        44876483037941139414, 39174189869549713046, 32470135790947606825, 24254470470789519472, 15225781911486955092,
        1184783514147083584, 9811991758431748277, 15399836598666573969, 14888555686787181039, 2791209013804736871,
    );
    lemma_next(
        138,
        3251594987480398181, 17082500259579995284, 14956854233401818489, 14676379980423024808, 8177911766121276026,
        9072374833093297525, 13756007206828375334, 3017048689849014342, 365269116500152525, 12135473424279250447,
        3118326540179992345, 15318674418070622068, 7932524208937886265, 10290334419373975038, 13562956502377315002,
        5266670616954237605, 16821771507374245500, 14847797829044982018, 8020077176382200313, 1143008977878815341,
        1920235493588983727, 7091444137545939768, 10635989626185571620, 9934736498857073776, 9539676293976499209,
        -216973494513790500490, -176948017183488190601, -106492775283070024976, -50632878200008924342, -90584011565833022417,
        94655891797350711814, 57394469517190361484, 60798715046869435654, 46570284773202727783, 25087406117860429780,
        26529981587258194611, 18826221362828855537, 25823603202297009145, 15721029181679555060, 5427546166829933128,
    );
    lemma_next(
        139,
        5266670616954237605, 16821771507374245500, 14847797829044982018, 8020077176382200313, 1143008977878815341,
        1920235493588983727, 7091444137545939768, 10635989626185571620, 9934736498857073776, 9539676293976499209,
        125219472962258073, 4603474965099702555, 15957985476539587040, 15303677597473772165, 5019272451465082704,
        14636944301090180718, 5702562793672159202, 6632860241367145916, 14945221490666908974, 18409637507802825296,
        10214906346862013463, 3137292086352943415, 4095044813843189419, 13811527464712385326, 2378148397598925437,
        -9073091339677569102, 40627932533468999710, -9688919705435479840, -59142160533298583617, -45391179029061673032,
        86950164936944335001, 64203492512451128503, 26349823319154950713, 12269715302063114778, 21511357975486332036,
        -1440882542672909408, -57604029997270297715, -53902267273285337880, -10246096422939849830, 11936243925186704042,
    );
    lemma_next(
        140,
        14636944301090180718, 5702562793672159202, 6632860241367145916, 14945221490666908974, 18409637507802825296,
        10214906346862013463, 3137292086352943415, 4095044813843189419, 13811527464712385326, 2378148397598925437,
        6260069115545259094, 10051152087019138047, 8230813703699634927, 6754399616216856873, 6579434937372946249,
        14569305442618592422, 13481296090524575562, 12642987664714263509, 5029972529325499742, 5529843468508152860,
        3505039150186727616, 13033309894047016260, 13336830626679351492, 7536116872143917312, 7915766152957905241,
        -166616508470698273917, -196541042866523047381, -255243694610461870018, -219601544032600824808, -92616825402557104754,
        41716798323718986582, 31855604072858477795, 25517640333993899886, 20593944838748969575, 15498709346524652831,
        19423591172799591506, 19098380136478199550, 18509700742789664567, 10425595660956466999, 4267646853634924763,
    );
    lemma_next(
        141,
        14569305442618592422, 13481296090524575562, 12642987664714263509, 5029972529325499742, 5529843468508152860,
        3505039150186727616, 13033309894047016260, 13336830626679351492, 7536116872143917312, 7915766152957905241,
        14926056115742043317, 16081844414212772713, 6830247158794514501, 294411890976380436, 3479403944031093797,
        15684397028675085746, 12168208483281206307, 4763744400264776240, 11149522312319036802, 12243850411746705676,
        17790481045745486534, 7278965048048570143, 15746018433595369376, 17126100391897330707, 15146689948499747207,
        -89471141540476949769, -83846091471412589405, -60421504049341131720, -40022566766435928598, -36692112190779789313,
        30931419778307070561, 33769005007118297161, 25406613227801255457, 14354485293947895471, 8673032223617503759,
        -24139401528703001305, -3202098148373449649, 3323043836682472748, -1413246105916449367, -8039542255797999499,
    );
    lemma_next(
        142,
        15684397028675085746, 12168208483281206307, 4763744400264776240, 11149522312319036802, 12243850411746705676,
        17790481045745486534, 7278965048048570143, 15746018433595369376, 17126100391897330707, 15146689948499747207,
        1064394975643383132, 4641982591350151773, 1145694141839436568, 7177759782648536728, 3179819389387987173,
        18256958163288294065, 15478805370908619292, 1292438920107721424, 14870269685613462323, 13694075094792262809,
        17629727897886349611, 18291690048959277143, 2651184030061749263, 3671879562892718928, 15241860528227677556,
        -161617738432810204143, -107933921324015625515, -120823727168156489915, -108558407106007950174, -86159686099113330642,
        7537267153656258465, 10099403686898041862, 8724077394071620521, 3049333869252408580, 4050571432032013463,
        403583434973321665, -3656776901568755685, -4409573204997986995, -1297742307285943618, -2536011278925294311,
    );
    lemma_next(
        143,
        18256958163288294065, 15478805370908619292, 1292438920107721424, 14870269685613462323, 13694075094792262809,
        17629727897886349611, 18291690048959277143, 2651184030061749263, 3671879562892718928, 15241860528227677556,
        11156713248365750304, 15439183533643133516, 8007031138554379917, 144391228005769654, 7594476462162749212,
        8943620009288474998, 3639500045243271559, 18130981172028096592, 16088792925209970078, 14448677740019310510,
        10070831263777089580, 6360301108150620073, 10744682940454261432, 17391190269136499986, 1556280990880483362,
        -127057918149397480806, -119018848899265246856, -186426397321024679584, -123618643141898434825, -114769996988651241740,
        45261332480393393788, 38457675123559881717, 22964060327028207440, 22957662678995720804, 12903627025851495385,
        16378532642538599276, -6853018563981116101, 2244818742148489998, -10550265307132379299, -4858266685856855832,
    );
}

proof fn lemma_doublings_13()
    ensures
        doubled(
            156,
            z(17748560711676790258, 10665904178399957151, 9481645375353604072, 832376658069395074, 18381334649011149109),
            z(13278210139712275029, 16147098074944561296, 16770843493911002490, 7651453146211385986, 7826354948186005309),
        ),
{
    lemma_doublings_12();
    lemma_next(
        144,
        8943620009288474998, 3639500045243271559, 18130981172028096592, 16088792925209970078, 14448677740019310510,
        10070831263777089580, 6360301108150620073, 10744682940454261432, 17391190269136499986, 1556280990880483362,
        4782616943223527234, 11287269771420704932, 15975028900466335644, 5859056681815970238, 9540328380298948372,
        2729777617176326955, 12039576942418354414, 8349588870489826567, 13577465916710039409, 16628770232547493288,
        4822303418961769144, 3470642080129600688, 4169257081335937767, 8784135811571187441, 1780268395021141043,
        -207447955331130369479, -302308484189757841547, -193999205328998075643, -125710116477277974588, -59381913526100347280,
        66709365075058300541, 61007684404452416704, 33371270984838345961, 37390108701217168347, 25951600218867186636,
        420824180963298468, 13529593527787639915, 4596465724610762195, -2047227540816483415, 9987837007941119217,
    );
    lemma_next(
        145,
        2729777617176326955, 12039576942418354414, 8349588870489826567, 13577465916710039409, 16628770232547493288,
        4822303418961769144, 3470642080129600688, 4169257081335937767, 8784135811571187441, 1780268395021141043,
        16140595426850770962, 13167326912534429834, 8030836071713059350, 13673599351609531866, 10743450905304730385,
        4324119819445856662, 15809205916954211166, 9445633456009363867, 1768374942004319800, 15548566777798830445,
        14248175626272495662, 17995643619781737315, 10979699386207638327, 13209338814787308528, 15973182942920291325,
        -237508252037285313324, -164867650415221564330, -196232939531891189044, -141945993189274603596, -49223610581762490707,
        95851962001075574972, 81512070830141364190, 71233888485663613615, 54164277799111025321, 41817418818021573267,
        7317826352322188616, 21319749461121235127, 18691175185552520957, 8614823912446620252, 5174571735502362237,
    );
    lemma_next(
        146,
        4324119819445856662, 15809205916954211166, 9445633456009363867, 1768374942004319800, 15548566777798830445,
        14248175626272495662, 17995643619781737315, 10979699386207638327, 13209338814787308528, 15973182942920291325,
        6845601875002664438, 4317115216709568871, 10996601783727415081, 4137555053635505951, 9967212098644063932,
        6997943059690036748, 10463734731056051398, 11579786616027579338, 9664722422444622830, 256065563323220182,
        13381265797402881352, 2327823287807149304, 18283449880355877348, 5051999628170036786, 517394753686234255,
        -105829046406193097839, -36539905065503330959, 17118917456824529860, -74434840000742386921, 9127120727576504421,
        31335294329977859790, 41638641522640363101, 22585749037426833877, 24374559131820677220, 15889686825653453603,
        2851634943683928772, 19933979282778280222, -3644465951014791712, 23945748833832112075, 2309086009219299469,
    );
    lemma_next(
        147,
        6997943059690036748, 10463734731056051398, 11579786616027579338, 9664722422444622830, 256065563323220182,
        13381265797402881352, 2327823287807149304, 18283449880355877348, 5051999628170036786, 517394753686234255,
        11281804013558944664, 12591650498961337337, 3977583781871817109, 16488942360210533381, 16736395909052357304,
        17586179141111348659, 6561890226499138632, 5762131655940315490, 16922389483290848616, 17199605287301702520,
        9094393273881945095, 8504538531466023602, 18433739309149403999, 3934143378488855794, 17982170732223130389,
        15968754690052028815, 76126212777605067643, 15010270982167097854, -2559102827201170244, -11426259149638308136,
        96777462773373158843, 81271319356719158967, 103220985841419737019, 71152912457366338886, 43839750005301089743,
        -19646304814790909035, -19428935519619382797, -61251785359114080438, -55208440218437238441, -20180857500613521544,
    );
    lemma_next(
        148,
        17586179141111348659, 6561890226499138632, 5762131655940315490, 16922389483290848616, 17199605287301702520,
        9094393273881945095, 8504538531466023602, 18433739309149403999, 3934143378488855794, 17982170732223130389,
        18074386596588513427, 6473417911692885184, 12791288327945993764, 5332910474986285920, 17616503212842643615,
        8939585813012197746, 12829107311028245914, 7134132876070887711, 12188386508084858286, 1876646597220909283,
        18106456344256572957, 7197517092452839461, 11697910108617921891, 15797973138794122911, 9362480159536527834,
        -102815959589351135180, -63644731232508624141, -215533383576834485310, -112690003036693341170, -54049339044655025012,
        76989529599979557905, 90604203296895173758, 57895199453870882101, 69898971475051759109, 47134407529871770583,
        15306223010362069373, 28944213896477802694, 29304375182432235917, 46210823970605664758, 22169160345882119467,
    );
    lemma_next(
        149,
        8939585813012197746, 12829107311028245914, 7134132876070887711, 12188386508084858286, 1876646597220909283,
        18106456344256572957, 7197517092452839461, 11697910108617921891, 15797973138794122911, 9362480159536527834,
        7227904547983691629, 5763092219489423696, 17326911181895555248, 17323975931447289745, 7533633743337381800,
        6350466769940445228, 10042396341046788716, 7628721792279288728, 6495296878569915033, 10387230603137389089,
        13008231084973008900, 17124345990413275539, 10815391423129047503, 6347791519210254097, 18418605373263468114,
        82987878255685076457, 64555000098642854239, 69316042653458845254, 23233396354714712835, 2898126479392852815,
        114587740034440112761, 95782659367160104419, 57829321318705440250, 33632611407743826501, 33003437452663326409,
        11101172009775101394, -6647259725338214059, -13893825031538612025, -3301893925319653209, 1653885462340531660,
    );
    lemma_next(
        150,
        6350466769940445228, 10042396341046788716, 7628721792279288728, 6495296878569915033, 10387230603137389089,
        13008231084973008900, 17124345990413275539, 10815391423129047503, 6347791519210254097, 18418605373263468114,
        2980141562149572404, 5897655276039375248, 2883416089606913117, 2800265103144449737, 6370777527485576820,
        5692642238996054219, 8501947121644216164, 6454302004630468961, 13045557923726798497, 8540071743554164899,
        1203510767002423158, 3663165600850721221, 1881470444728014445, 6848444358751496323, 3402999122082797998,
        -65872215876668346423, -59331110959900204094, -49552448924534096782, -34539816011274486531, -24560947193479537860,
        15328619379796280075, 9155749279069678735, 8619814388737622703, 9349160986393443365, 4299713941539780644,
        937205098456743311, -440876659536813034, -5160336492546041961, 1571712133243722517, -1151180164937046961,
    );
    lemma_next(
        151,
        5692642238996054219, 8501947121644216164, 6454302004630468961, 13045557923726798497, 8540071743554164899,
        1203510767002423158, 3663165600850721221, 1881470444728014445, 6848444358751496323, 3402999122082797998,
        17627850649753552887, 11103643217655684637, 11224888904267447164, 5825568979219481875, 17221752356418267040,
        9807019589992480554, 6507747949018262318, 2970779800471750438, 9780362339674118045, 739918819021522472,
        12597113119834391808, 12512008679424535824, 14235960778491733421, 6564967858873929607, 14542599470874275362,
        -94601235623180680986, -108169788865645456934, -78137460077584833508, -37952505975235578131, -37064052337981491033,
        100312253568062350217, 89617551250114473787, 60769058029310675945, 72881431029292340707, 46758016675984375216,
        24999988983153104865, 26518411689095374786, 18560707042212645072, 26977722846234923324, 8327659545661465735,
    );
    lemma_next(
        152,
        9807019589992480554, 6507747949018262318, 2970779800471750438, 9780362339674118045, 739918819021522472,
        12597113119834391808, 12512008679424535824, 14235960778491733421, 6564967858873929607, 14542599470874275362,
        7377134554704857185, 15098693744951410843, 13987980508849391336, 9442330585320330410, 14645313766920251862,
        4556579118821806337, 11960254305179576390, 7911482245678977126, 14914039065081833456, 18291755348136693349,
        7229657441137782955, 4616229423826238707, 3655484325229639332, 18020727108518908403, 3966597337753396329,
        165994940593417721241, 115197119935683286744, 103483862826755430730, 91947951762519247248, 52282049977949545086,
        117833671208587388216, 93208491753176481056, 68525282372322540447, 65332439999295638342, 37777843726523249043,
        -73250962277856954951, -57462137982054447354, -41637404216706029213, -49348524113202548013, -13590178320836110483,
    );
    lemma_next(
        153,
        4556579118821806337, 11960254305179576390, 7911482245678977126, 14914039065081833456, 18291755348136693349,
        7229657441137782955, 4616229423826238707, 3655484325229639332, 18020727108518908403, 3966597337753396329,
        13611865458983925644, 8382997397145955395, 11913679542461840377, 7780084651239043897, 17836590687394761801,
        17801845903631877698, 10444664739626948232, 16751720307638771636, 4804849051369995324, 715351464227498717,
        13521294512047884406, 16719668487996970693, 7724692994456182212, 8851128049965174805, 12267494082186306876,
        -204638992209084753272, -171892844784225069757, -167671972510267728112, -151132736420408471415, -50478290760029655868,
        88826735332504477588, 91333308691521976397, 66528302201949592295, 74049898299827354373, 41088831802387457592,
        26986575750185959111, 16301295871241912711, 37174656370785552197, 49819824860846164395, -313648408858758722,
    );
    lemma_next(
        154,
        17801845903631877698, 10444664739626948232, 16751720307638771636, 4804849051369995324, 715351464227498717,
        13521294512047884406, 16719668487996970693, 7724692994456182212, 8851128049965174805, 12267494082186306876,
        6710092780251037683, 4087913914702448864, 6949066359296338192, 8066947191754862690, 8249631069545421201,
        8398007440556576269, 3554419778020903444, 604749408385715062, 7552644323561263189, 6134441237400276122,
        14642283645546003470, 18427585355945739178, 4403305455807852718, 14417700812446057377, 1477254866807981777,
        -26083227317168379177, 6401869648379854931, -38936293050971031234, -17777479059952517091, -20717866513524094756,
        31643228793107144728, 32203562563174137608, 27607301722654500494, 20016732237960910242, 12194839020212793714,
        27140545537584518475, 16524548775194845761, 146956762490103727, 2016292378157184050, 10721266910159545849,
    );
    lemma_next(
        155,
        8398007440556576269, 3554419778020903444, 604749408385715062, 7552644323561263189, 6134441237400276122,
        14642283645546003470, 18427585355945739178, 4403305455807852718, 14417700812446057377, 1477254866807981777,
        17413934291435560276, 806182976975654928, 9083985115409792190, 2352394260216517159, 16538414135700443883,
        17748560711676790258, 10665904178399957151, 9481645375353604072, 832376658069395074, 18381334649011149109,
        13278210139712275029, 16147098074944561296, 16770843493911002490, 7651453146211385986, 7826354948186005309,
        135925433436242271262, 33995086447060306098, 54116861548869426428, 17746460404462237228, 13793344170845861664,
        27726178663745709904, 51287487620003267080, 29840225009069390250, 49717880260975659863, 35903865613760968627,
        -23028079917482171054, -46519437580032587463, 94543322959682822, -31678191680203309807, -24928993340867890618,
    );
}

proof fn lemma_doublings_14()
    ensures
        doubled(
            168,
            z(8003520911322506878, 13892683941889074745, 4974158164628124565, 18129743576786557630, 17149373229925560629),
            z(14382637625776104019, 11504106205277884814, 12421734867752016271, 9442717547305610558, 7022403932151674194),
        ),
{
    lemma_doublings_13();
    lemma_next(
        156,
        17748560711676790258, 10665904178399957151, 9481645375353604072, 832376658069395074, 18381334649011149109,
        13278210139712275029, 16147098074944561296, 16770843493911002490, 7651453146211385986, 7826354948186005309,
        12343934917074091968, 12236511375831358428, 5757769986608865976, 16751198685331427871, 7912767289204557031,
        8878202464639900829, 1252347184889564266, 8301840192805164486, 3230392174122835449, 5630390165981392580,
        11047998663222923759, 11540064788577656336, 6223470816213585750, 538860888729862484, 12641874493785189553,
        -54053635432673494149, -93240271157949771119, 26323293108527138367, -115716330386900736033, -51810210398319407418,
        71124639674761016903, 76829858482160745419, 58935566330717693776, 40240006817279490838, 34610647181081738970,
        44392983325394780683, 19108589459564197795, 41453495121599780414, 26579853268315783274, 19663306126436305180,
    );
    lemma_next(
        157,
        8878202464639900829, 1252347184889564266, 8301840192805164486, 3230392174122835449, 5630390165981392580,
        11047998663222923759, 11540064788577656336, 6223470816213585750, 538860888729862484, 12641874493785189553,
        14078176253823676623, 674821972995567918, 15827352593188704952, 793162222200658234, 2889181901031570197,
        8962624374813732805, 11427709258665052821, 18059701924939164051, 3870977576614958418, 17427642461704497047,
        10108097361235954991, 4514082317287969470, 1060301636148008188, 6193182575551091394, 14559240741310795453,
        -11005812055190642136, 35172225633083063836, -8906631676988270960, 5733809872699058804, 5684611374803735364,
        15461541346887725350, 16005884132919160567, 24928271431710896961, 3726183962090468307, 18047867933325987823,
        -9047779484198654215, -42802475038814401964, -9714415600586812128, -15123119813309146056, -17849861104771756391,
    );
    lemma_next(
        158,
        8962624374813732805, 11427709258665052821, 18059701924939164051, 3870977576614958418, 17427642461704497047,
        10108097361235954991, 4514082317287969470, 1060301636148008188, 6193182575551091394, 14559240741310795453,
        9198691159608610172, 3156801265179645876, 7921244861122969902, 5004117936057580839, 4516040154098105621,
        1663645558619754587, 2409028385351124628, 584014805754321011, 17192505751712791598, 18082085446195161149,
        1308687823889369960, 17791382192421075663, 17726368980157936506, 3438362260899861385, 734957468021883040,
        -226271073156707829352, -290629605333090967763, -95636094759714078479, -189309475821275600799, -93286665333064303287,
        22116988562299682511, 18856250545135062809, 15790773076073223865, 11018644683002578129, 9618144450284370953,
        6988296973178635488, 6896864603423166799, 3075568888453681096, 1719778058007574303, 9131626936220483108,
    );
    lemma_next(
        159,
        1663645558619754587, 2409028385351124628, 584014805754321011, 17192505751712791598, 18082085446195161149,
        1308687823889369960, 17791382192421075663, 17726368980157936506, 3438362260899861385, 734957468021883040,
        6137448087365004714, 4063261888566030921, 2583784250518470117, 17400587475279285680, 1770926298462718514,
        10064527005844919528, 9225185477560307226, 4431216144136416067, 10257918379545925804, 10598989448826524655,
        14033102992962609632, 12436303095402862284, 10424436110285530922, 10424361643242759549, 2015301439049745174,
        62553296805272468796, -113116147589702833469, -278467214055626153616, -151309113889815015799, 17474203292426320769,
        19006003169567334258, 53433364523904669454, 12637283171648978188, 13227056641041273502, 9205969612569622328,
        -7786394705525033686, 17542048409966390982, 19215251892724443121, -5264193700271649052, -3757772091397542290,
    );
    lemma_next(
        160,
        10064527005844919528, 9225185477560307226, 4431216144136416067, 10257918379545925804, 10598989448826524655,
        14033102992962609632, 12436303095402862284, 10424436110285530922, 10424361643242759549, 2015301439049745174,
        11332169871307860282, 17784812662540842818, 4013543028548968660, 802495155644320047, 7339736929311603422,
        15801831861520095662, 3582202880531868576, 16311040582274668703, 14461312119056659504, 16936177513757808187,
        116450985484545168, 12470430248637726490, 12677688178593876661, 15557585357003974788, 9020839806743304435,
        -81319002883357573023, -54789598089119952615, -66130172403590093516, -57333206979756037465, -29307852056999972247,
        50467347581455514262, 31537442574259775751, 23993637171072742011, 17486200164192166048, 11438510245863303243,
        -19412163243175922252, -20930379471052215082, -8950296076942238847, -20622051688467828395, -12567675339910083271,
    );
    lemma_next(
        161,
        15801831861520095662, 3582202880531868576, 16311040582274668703, 14461312119056659504, 16936177513757808187,
        116450985484545168, 12470430248637726490, 12677688178593876661, 15557585357003974788, 9020839806743304435,
        17704137837909679321, 3955299187521557671, 16729653086961910292, 12788529647662540481, 14418455293800862307,
        3745028446801548625, 14626657537514436684, 12927566337714665968, 6599057325143311061, 15138951619050972027,
        10935059072469043118, 10713377652329770324, 5974197501840368278, 385361309066375761, 16452952341399956428,
        -122271621046841373435, -192758118199239025971, -184530828778480822988, -132890108069697116013, -82709564685279781333,
        105129572098242788666, 112647756077229086333, 92935512720581678973, 65531180158772890864, 48332586540338810179,
        15257784642703230956, 21160919503670292809, 33987561471530226415, 10827691401439724260, 8246355016913778261,
    );
    lemma_next(
        162,
        3745028446801548625, 14626657537514436684, 12927566337714665968, 6599057325143311061, 15138951619050972027,
        10935059072469043118, 10713377652329770324, 5974197501840368278, 385361309066375761, 16452952341399956428,
        14731737445690321358, 12197109989880987597, 12945399988871824089, 1559635177500895930, 8315464667796773275,
        17717517460946540756, 6431123916779784561, 17233024864330482298, 17714099029165065906, 1722969378362529650,
        4063660214766655308, 15245982495166286261, 6061926225011084382, 3854931686500734267, 12321601869136125847,
        -185226110153081079124, -112830023214136914052, -99577443785896979696, -111457837624353619663, -30171017879026289360,
        51321388472871160068, 54890376485548394913, 32959773531162992319, 30855638411247932433, 24428806906741494497,
        2044143295472999483, 16909452268165919181, -19453439238932535163, 10989734899950587114, -5262296524658977099,
    );
    lemma_next(
        163,
        17717517460946540756, 6431123916779784561, 17233024864330482298, 17714099029165065906, 1722969378362529650,
        4063660214766655308, 15245982495166286261, 6061926225011084382, 3854931686500734267, 12321601869136125847,
        7309589425604056503, 12975815151238227108, 2251731693571299301, 17377481409152644201, 18099769526613383027,
        8558013995868962091, 16396175771841460036, 10041502995585757816, 7955514768390448601, 4474753655846229726,
        4133789867792214512, 18341233207698635563, 3738268799275546971, 9670638077471003311, 13561980692741890015,
        -177672173664594991731, -134829091672937016101, -16234960252366080951, -44078741464604383358, -41913736280196610016,
        92014191067458054548, 72650289173307953855, 113215681319454878220, 70217572436161188676, 39066408353785872393,
        -7612746982757131403, 50234136598665452400, 17906373182984397635, 8237637852925267587, 6251615346090922372,
    );
    lemma_next(
        164,
        8558013995868962091, 16396175771841460036, 10041502995585757816, 7955514768390448601, 4474753655846229726,
        4133789867792214512, 18341233207698635563, 3738268799275546971, 9670638077471003311, 13561980692741890015,
        206182920563945267, 4112061857755082999, 16207150876697099033, 13138854573224187163, 10991833459080725166,
        14059194969533665980, 14956975065547273516, 11242002443211640989, 2510871354730078941, 7664464463075977443,
        10748469648218450774, 7014231714214516924, 12407019071391382580, 16155957396327563350, 14796502779633643466,
        -10693487061668173816, 8074759698646343326, 1648015045517047434, 3021568924645087536, -29043913499410403504,
        83965901556552330805, 86110697153681936693, 48253118959522523350, 27168417103530891581, 20342883289761841472,
        12163781176694346605, -129603723050261555, -1608712541365810092, -8562493123248539561, -2129603208888386343,
    );
    lemma_next(
        165,
        14059194969533665980, 14956975065547273516, 11242002443211640989, 2510871354730078941, 7664464463075977443,
        10748469648218450774, 7014231714214516924, 12407019071391382580, 16155957396327563350, 14796502779633643466,
        12483305278781074929, 12091279856591283877, 1259509778610495498, 12711656303740496539, 10577470335002591000,
        11444924252095225149, 11179625016536836964, 5222233648985658832, 1691808020192255260, 8370055817646545528,
        13246843570479509459, 5128188454932548974, 6074060014252156899, 1384749072484449362, 4109032597489373945,
        -16762128973132255281, -16420290195290740222, 37647139756919137622, 9974760910640425511, -2924234514016609779,
        55254551335509685584, 46976932836157531673, 53363766514653141843, 37051187808501124772, 31066205119060688676,
        19491960500975846534, 16173820499131068604, 6678439143188392551, 5345687658686289911, 4572412106126452575,
    );
    lemma_next(
        166,
        11444924252095225149, 11179625016536836964, 5222233648985658832, 1691808020192255260, 8370055817646545528,
        13246843570479509459, 5128188454932548974, 6074060014252156899, 1384749072484449362, 4109032597489373945,
        2702319035685956179, 16507820788231539527, 15884586112493562394, 5284026988306475279, 3645934815148563781,
        15873810329504835451, 6420959505756493105, 5056095961576624078, 18432164661890130208, 9664682563060546015,
        12022139140419840951, 12602565041052764427, 2391814857414528522, 9652176697962485565, 12187560411258930196,
        -71612044252808871428, -29640995715343094407, -11107895591057107864, -26897406563027265778, -19427953005053359744,
        47272767833307380970, 28214551661746216640, 25692875230966751073, 32139903655066035353, 24203760485812882149,
        -44405700432047957496, -20897886434897682842, -10569461057658399173, -242238352530036234, -14539627449358914835,
    );
    lemma_next(
        167,
        15873810329504835451, 6420959505756493105, 5056095961576624078, 18432164661890130208, 9664682563060546015,
        12022139140419840951, 12602565041052764427, 2391814857414528522, 9652176697962485565, 12187560411258930196,
        5785270376327314819, 7232265650876691520, 1537116195384645871, 10030150767326137110, 15625133690735248392,
        8003520911322506878, 13892683941889074745, 4974158164628124565, 18129743576786557630, 17149373229925560629,
        14382637625776104019, 11504106205277884814, 12421734867752016271, 9442717547305610558, 7022403932151674194,
        -79582147922186525412, -179522540856333705263, -104435786452394562705, -66255320550918100977, -42869747222827937266,
        43585203953205297361, 28709612493510127457, 54775282200973822857, 47201952757339490246, 17793676804567610718,
        -25112400590348506279, -427153192037673395, -13688460752481945655, -15235773390972005855, 381854926845531783,
    );
}

proof fn lemma_doublings_15()
    ensures
        doubled(
            180,
            z(9003725845985522180, 16353859217446224662, 16225809523759657429, 15453242919965760324, 8240935737422063301),
            z(6084371701702340962, 15580572017626829017, 10513223049977858931, 15492705580327443964, 12989176099039874665),
        ),
{
    lemma_doublings_14();
    lemma_next(
        168,
        8003520911322506878, 13892683941889074745, 4974158164628124565, 18129743576786557630, 17149373229925560629,
        14382637625776104019, 11504106205277884814, 12421734867752016271, 9442717547305610558, 7022403932151674194,
        18256853491693277282, 13266418855775650248, 6722135399827538019, 16451241061798016195, 1263151824688857518,
        10538359602564248331, 15004070978570584521, 6889478320605825949, 8539966231852464288, 4916854558430760677,
        17241062384949267701, 17195108303842128305, 16699387667970265034, 10780813385886355762, 7379713265031231050,
        -180282961312963216019, -165323724476460231309, -254648660042396997881, -139681164162636047697, -71566988402574021401,
        59489225950766384531, 73036335775334292028, 29605790620143985281, 42492039675366289068, 28612505664739751138,
        29014257544171402532, 35713645281994033543, 31079143189415756940, 7960872030123666901, 17140622726024601046,
    );
    lemma_next(
        169,
        10538359602564248331, 15004070978570584521, 6889478320605825949, 8539966231852464288, 4916854558430760677,
        17241062384949267701, 17195108303842128305, 16699387667970265034, 10780813385886355762, 7379713265031231050,
        9136238502122559940, 11304095280999731207, 8447634280095503548, 5652520821827416360, 885105290335311007,
        5164846111925064210, 16484723563369149473, 9632087412801713505, 15404002947951385785, 57765879389722836,
        4111455394481140879, 15215630584780021810, 6785875432807205936, 16584793598190858301, 9153449824329142982,
        -37971621767562697598, -36997370530371063977, -31121289538895825315, -15104612776644095127, -18239592238926101827,
        23310634740966195262, 18825494051712309341, 16922239966541937286, 16079884631352646098, 11673000833073841434,
        -570164349376545639, 2530457441104908820, 3673874478920338637, -3412303555436431610, -3251510655865719492,
    );
    lemma_next(
        170,
        5164846111925064210, 16484723563369149473, 9632087412801713505, 15404002947951385785, 57765879389722836,
        4111455394481140879, 15215630584780021810, 6785875432807205936, 16584793598190858301, 9153449824329142982,
        2403504403070888615, 6425233671626665783, 6699906165815232419, 600217893628860397, 15845481619939911354,
        1848326452390896993, 1460519180498690096, 15760086731997835896, 15018478154009516047, 11827713603671406617,
        5712426025961361168, 15800876413249331797, 15180813437174419654, 13949378271432046232, 4340898165672580367,
        -13959246997531040261, -79016241422636828900, 41374477877799202463, -9979412738224019794, -70857595428978941119,
        34736253979997472922, 36263655901430753311, 7077378251243697261, 45656839939951364395, 6980700348619211914,
        26671865396383452038, -25465826605648765202, 5483818667162125164, -26850120115217769206, -287281434563253312,
    );
    lemma_next(
        171,
        1848326452390896993, 1460519180498690096, 15760086731997835896, 15018478154009516047, 11827713603671406617,
        5712426025961361168, 15800876413249331797, 15180813437174419654, 13949378271432046232, 4340898165672580367,
        421872272500947003, 15390822287081229769, 17631243490570477374, 4491747295686848437, 13780597828946424968,
        11809705179408407876, 17389565980596741999, 13944948751135388669, 3946693157704204953, 7684108707240155022,
        1435556295424914742, 13398476126719287444, 10515697777435294907, 17850026039373945727, 5077569721980890359,
        -53380943964889813860, -169242038242865234678, -76306188758102806414, -6355492560930936955, 14085440668460512830,
        94754765633298281287, 83013444133939997282, 33780891198528462440, 60510580250622586579, 24977384535060254254,
        7517321284336685579, 15361677221426188455, 5070632562794219852, -6596367093260206987, -253048447249873072,
    );
    lemma_next(
        172,
        11809705179408407876, 17389565980596741999, 13944948751135388669, 3946693157704204953, 7684108707240155022,
        1435556295424914742, 13398476126719287444, 10515697777435294907, 17850026039373945727, 5077569721980890359,
        18022372746082398262, 5539982121431145569, 12263264784438537770, 6179609974830574860, 8461003844393666809,
        3474138717476216756, 3450598916803396055, 9503449898410775826, 966508291174890683, 606257928511127645,
        17833827984175704689, 3224330883374355037, 4805839771517100588, 13003536062319732855, 1350950936067297143,
        -65609322065296970887, -66842635435101332842, -42503404535145798097, -48897700911069942410, -38546460122036515259,
        57502935796497598222, 50784418286052965123, 42632557785153813877, 31083250252881736074, 28397003229265812367,
        44108256993089836356, 39344210455755147198, 25280904410650646417, 26043663124016051604, 19255525569960919492,
    );
    lemma_next(
        173,
        3474138717476216756, 3450598916803396055, 9503449898410775826, 966508291174890683, 606257928511127645,
        17833827984175704689, 3224330883374355037, 4805839771517100588, 13003536062319732855, 1350950936067297143,
        6090320056274069677, 7349834546847217526, 4078713233707380723, 2928489564650229739, 17951455250448232240,
        10876164608272669191, 6655920701388701746, 6983280972057535346, 12945135049990422523, 2808643563302169358,
        10060101856627460952, 13671411697238020844, 6291325094225921739, 16651794682189392992, 11265492800996233337,
        42693924237088745035, 48602598894798266726, 77595260585046328471, 15454719456095704477, 32655267279683432638,
        48810790980126806688, 30063130348193142311, 22720828160150561180, 57592323347291919153, 15089055501737189989,
        -21179568184073101170, -3815825192216686675, -38101630534663800579, -11264278988000236665, -12654753537438639430,
    );
    lemma_next(
        174,
        10876164608272669191, 6655920701388701746, 6983280972057535346, 12945135049990422523, 2808643563302169358,
        10060101856627460952, 13671411697238020844, 6291325094225921739, 16651794682189392992, 11265492800996233337,
        13956381238886510263, 15619145277519467649, 15517733858196799107, 1213216207410222640, 154353553575365446,
        7091291005044324017, 10111350821674309571, 13957589473415676243, 7251769218412639587, 17826360768707338984,
        14599033395890075981, 1725954090291720042, 6332806274358232841, 1751477970725106283, 12447667914310793085,
        33980948601290138688, -22973225801629349806, -12508135393926541650, -4020652878086573768, 11904768173057853284,
        17466713738279510294, 24652614868534264883, 36766602356626070228, 28117870988856180921, 15341856400272646265,
        -22378381718203938787, -36360850454942212707, -7838627323806791850, -4632613881285341803, -12603899964356507651,
    );
    lemma_next(
        175,
        7091291005044324017, 10111350821674309571, 13957589473415676243, 7251769218412639587, 17826360768707338984,
        14599033395890075981, 1725954090291720042, 6332806274358232841, 1751477970725106283, 12447667914310793085,
        11653881540291094438, 5253697846848036151, 3823550054379516162, 17785468757175289331, 15381483321338040792,
        15120462073427446156, 13330545270725348096, 16967124759195310051, 8115235148843999748, 16054617096140151955,
        1893110254027797688, 7451409631078864842, 9477707866832530506, 17391816584245188601, 3847973873302974581,
        -195662498639246023664, -223974406396488173338, -79154525139140625623, -120709292208869422336, -49624135404164741179,
        55765544647121891978, 77211016991808487145, 95307935077781914128, 63126865562683189750, 30358011138564076075,
        -20853373879310521724, -13244650988136875210, -1517648060117223423, -5379220494981526765, -9549178409577181754,
    );
    lemma_next(
        176,
        15120462073427446156, 13330545270725348096, 16967124759195310051, 8115235148843999748, 16054617096140151955,
        1893110254027797688, 7451409631078864842, 9477707866832530506, 17391816584245188601, 3847973873302974581,
        17330009727688520156, 12635705663130807750, 18026447435345332518, 17684305564890712780, 12362097264808540851,
        14805488047244487351, 13179024548117672405, 14795021434125448103, 16557466958325817560, 13032186590683559700,
        12881492736422163396, 10213862152083509349, 5161512489491612465, 10619842197916754665, 9000361019368835213,
        -174550826300280001355, -186192815001236523737, -115697114329449444318, -159906152137299054159, -94559525019629530807,
        170776121140220759453, 147084274766983082391, 113632449242021851871, 82776477162129854467, 65070057581957830306,
        -11691193570598687879, -10694187215810309091, -5827983102298494499, 83175427447153115, -464375798373565115,
    );
    lemma_next(
        177,
        14805488047244487351, 13179024548117672405, 14795021434125448103, 16557466958325817560, 13032186590683559700,
        12881492736422163396, 10213862152083509349, 5161512489491612465, 10619842197916754665, 9000361019368835213,
        1419132626226992536, 18306103153119251842, 16899335071563934295, 9207092878742839008, 6617584867988349367,
        17207083790963721084, 13718848717534398036, 5699136268596474390, 3864113113526044407, 6682948152914903111,
        12631524236026864431, 18013463037865172933, 8801282200025099368, 17775978676991159308, 8261796026800024865,
        -290888096809189431906, -265839187109740794821, -215568493375865186843, -163193872543385819478, -117974783300797974673,
        90120487605831836074, 52977693783530644360, 40584425979667732144, 42079588647533185576, 34773723134575732210,
        66642219087923996685, 43820677424168247546, 21131801949768743347, 15143011236786235741, 20286923866810391968,
    );
    lemma_next(
        178,
        17207083790963721084, 13718848717534398036, 5699136268596474390, 3864113113526044407, 6682948152914903111,
        12631524236026864431, 18013463037865172933, 8801282200025099368, 17775978676991159308, 8261796026800024865,
        18017059175538645459, 12815786621174427110, 3846039790356401751, 16247533358806584954, 11923912021705503260,
        902809085849732557, 4564504976158154276, 5096365180958985367, 1835368784564611733, 3831030392100515197,
        4826815101564388664, 13138880824876378, 12105610618776882773, 15380740666759091225, 10288486216930470976,
        38622858878324026083, 69918475043532008248, 72388984292118772712, 39910718727019489441, 32642302166373210214,
        87626968042162686680, 82882465729780235740, 79430710603198534491, 60204913130948258845, 46669998625294134502,
        42482244028958995846, 28581773881104985189, 21817875268467188861, 24199786013910269881, 22922617019193555798,
    );
    lemma_next(
        179,
        902809085849732557, 4564504976158154276, 5096365180958985367, 1835368784564611733, 3831030392100515197,
        4826815101564388664, 13138880824876378, 12105610618776882773, 15380740666759091225, 10288486216930470976,
        10861150384749388, 9378559874426019434, 17603618928407531873, 17546106768720814094, 7046401788209009644,
        9003725845985522180, 16353859217446224662, 16225809523759657429, 15453242919965760324, 8240935737422063301,
        6084371701702340962, 15580572017626829017, 10513223049977858931, 15492705580327443964, 12989176099039874665,
        162251508496142846962, 157305985723199776262, 91462429194045622900, 29849179409598891249, 34394968323973949621,
        121959765870929052438, 90425407172998709350, 45003133450902653417, 25995355209571455206, 34648655980561757370,
        -90985601587854121663, -68363472919105440727, -41920381177974817543, -29675850028809304713, -31855053773578638829,
    );
}

proof fn lemma_doublings_16()
    ensures
        doubled(
            192,
            z(12322673501314436692, 11091139782775314943, 882198734796469201, 11854400113664796880, 18158255314237578802),
            z(266525225476611711, 8788782364558109519, 10986071774457201804, 4143756687258839783, 15591184198494069272),
        ),
{
    lemma_doublings_15();
    lemma_next(
        180,
        9003725845985522180, 16353859217446224662, 16225809523759657429, 15453242919965760324, 8240935737422063301,
        6084371701702340962, 15580572017626829017, 10513223049977858931, 15492705580327443964, 12989176099039874665,
        13927334230175044010, 9756548971588251381, 8284537500147638918, 18082143544617169197, 6135230538068753318,
        2287390056346489680, 3533133288172287786, 10046559733679291594, 14907615936035475711, 3471242820616949242,
        13630024817397665387, 1916956639154427857, 16912790431351857617, 18237110000470342940, 3374262999577711531,
        -204280984933567466303, -117817922157072888649, -70146095235422903216, -78340844102484993955, -69113216340731215777,
        78709601767440438804, 84438883162902940961, 53753768422748342545, 42189139908879469989, 32112280082420175674,
        44337648546168846799, 27428286211771141345, 29033292225165960549, 20780703121145810515, 21465969494403574969,
    );
    lemma_next(
        181,
        2287390056346489680, 3533133288172287786, 10046559733679291594, 14907615936035475711, 3471242820616949242,
        13630024817397665387, 1916956639154427857, 16912790431351857617, 18237110000470342940, 3374262999577711531,
        4712406741689948640, 4661462177888926588, 7315742805350658540, 13199533889077339230, 16800884381053804933,
        14639256082828625192, 17846760704630196912, 16667612910717468003, 6682375338710764658, 2634118592870743364,
        1848771616874034285, 11180893746483510204, 1096967559635469358, 6892038093850189065, 1237564081391919568,
        -20398830001777050633, 41531519400577769942, 74567848525037450668, 28815468394399001650, 15797849504271578738,
        58085766591075731632, 70694437216196375856, 77046756449033384733, 56346876489316180987, 18156242053361224232,
        -46057361443401220304, -6216135176363904058, 14064069693578448984, -11799562991285898255, -21825363109402358631,
    );
    lemma_next(
        182,
        14639256082828625192, 17846760704630196912, 16667612910717468003, 6682375338710764658, 2634118592870743364,
        1848771616874034285, 11180893746483510204, 1096967559635469358, 6892038093850189065, 1237564081391919568,
        9624439900680450057, 9015050238170202448, 7474056307002241142, 9506029463281922454, 8109553191710317787,
        11996266384879444721, 2179479967078623965, 7903207218694071011, 4134475072444446965, 6825361731805285223,
        15616881134030496655, 14326557335751975043, 18355517867096002555, 1091980949662118968, 16449229020804417733,
        -134210327200442814093, -108920334941468613611, -112761941074673797686, -109462863722295464386, -74447230700078579045,
        51909952953233511048, 43817540208905146555, 37279004313054754703, 27919992909180471934, 20781770334194581915,
        32543519700765737600, 19869425802389555504, 10181115313200777704, 7794807522238947533, 11845116941023797999,
    );
    lemma_next(
        183,
        11996266384879444721, 2179479967078623965, 7903207218694071011, 4134475072444446965, 6825361731805285223,
        15616881134030496655, 14326557335751975043, 18355517867096002555, 1091980949662118968, 16449229020804417733,
        4938459403112311724, 5073333979080937042, 15678554933351811960, 4164169425903092334, 17583467486843772723,
        6883104704297439369, 3325657179363182606, 3338704756693162343, 12983547869072075301, 6693552285489054976,
        7884082947682309912, 12954127199300093532, 15911160299980780765, 17422437616021399028, 7283431959269892154,
        78068305183137121888, 137123836136177330314, 13633880794415451957, 91698178082284476057, 37129408375868486859,
        51573228895977785481, 95205418781232629668, 33605809007089156051, 61135408862751965468, 25030976103220728178,
        -21272261566399303870, 8495396171183902105, -19962973565457345380, -556676603172976493, 6096234225901759391,
    );
    lemma_next(
        184,
        6883104704297439369, 3325657179363182606, 3338704756693162343, 12983547869072075301, 6693552285489054976,
        7884082947682309912, 12954127199300093532, 15911160299980780765, 17422437616021399028, 7283431959269892154,
        14602206882420526065, 7605567837701658556, 9650754201587921308, 7474316427767747947, 5544551668387002297,
        16562130539649488400, 6865249932575159453, 13982654087588011217, 17861153579492115470, 12991587002452628277,
        11380634112989159385, 8276542180476599502, 4075660575369921247, 18289620915326017636, 17033374020699882001,
        75507481725311706138, 9425813200592544402, -826457937443169568, 19243163890200880402, 26940167136356022285,
        48736946180365128735, 38530756290597942738, 31893958114435816987, 24790722904031305041, 19990263734328179029,
        -39237187220880153007, -32204100223366627272, -27002520555000903782, -19702136221840741377, -16908469032017770552,
    );
    lemma_next(
        185,
        16562130539649488400, 6865249932575159453, 13982654087588011217, 17861153579492115470, 12991587002452628277,
        11380634112989159385, 8276542180476599502, 4075660575369921247, 18289620915326017636, 17033374020699882001,
        3040529650927517439, 3180022279037922937, 17082457672507753054, 7362015764543733921, 13857709022270050167,
        333306010620957024, 1234009491868696581, 16828785120189677882, 1662469836380316368, 2652273496384655391,
        3049592190345441981, 12641517456742132437, 2051608238266848639, 14897188766024110078, 15451512079130362122,
        -205282079108104492275, -206427771125252440925, -160914044026896288255, -101165384308606284133, -98491649182757037635,
        55739901488598080175, 86859669828346666430, 39362827975779554467, 39547485545227817633, 22925599075570125631,
        62307496527539053845, 45429966291680463294, 64416052639503388027, 37172505793978317549, 16299996327184195319,
    );
    lemma_next(
        186,
        333306010620957024, 1234009491868696581, 16828785120189677882, 1662469836380316368, 2652273496384655391,
        3049592190345441981, 12641517456742132437, 2051608238266848639, 14897188766024110078, 15451512079130362122,
        15449656391630362778, 10802233669091637765, 2771068808515485021, 11838722899692643425, 16760876473083784502,
        17488936895094861213, 12502207636035406736, 1719283417787942450, 14329580495592962316, 2846828862500880033,
        5441334631077221316, 16244518705119402483, 9163827927570486294, 4002477688191094034, 220639980723524047,
        119130611067447551325, 62186642798714442223, 153496652532790033017, 108938072915186351773, 18700676266874338260,
        82500022574114281993, 55994755751316437089, 75507992173765662747, 68763181353963525590, 42356943115650202028,
        -22042959137143656723, -2773826429921918569, -31423975070032631139, -14994223701375777248, -28130379944363787226,
    );
    lemma_next(
        187,
        17488936895094861213, 12502207636035406736, 1719283417787942450, 14329580495592962316, 2846828862500880033,
        5441334631077221316, 16244518705119402483, 9163827927570486294, 4002477688191094034, 220639980723524047,
        14690782091154277192, 12755454663186116350, 11774477187819115764, 7635343308051047746, 5255355309177462259,
        1300547264575785435, 14037941460685549639, 6663200950473301479, 4782342825878229731, 8710807268038696799,
        4861618222978424315, 4173270491509412610, 3943966476585501628, 16581937742807388082, 217215987730090485,
        -33075517612274338224, -116227982943213757295, -23608684096746392040, -47791386840245328179, -40812557637859375806,
        62744883650802607927, 49924527380095039533, 40625751081045207261, 32936556465150467664, 26445502866826583447,
        11558146215210216292, 6371665410932248336, 6212084872604463209, 4893224045454554808, 2752288876801160174,
    );
    lemma_next(
        188,
        1300547264575785435, 14037941460685549639, 6663200950473301479, 4782342825878229731, 8710807268038696799,
        4861618222978424315, 4173270491509412610, 3943966476585501628, 16581937742807388082, 217215987730090485,
        1636341713384986688, 3991028809630555143, 4451933207763669951, 18425302708112554463, 10457939426087051193,
        16393428276725589797, 12711845944192250702, 13864442692912235988, 8130855283880622915, 15053176689976975360,
        8526087127784368171, 13033449338670326852, 15099080424913748392, 15225609852536339196, 2993540425433955180,
        -87701758604248790908, 42217253718545551600, -12958090782085083671, -52353802066910732025, -9774904284535750569,
        40401413852107952069, 71063218281753269393, 64328006736185370873, 22981901831096595964, 10902577790204741749,
        -27203034028507801921, -30021347256159113752, -28694470625558938088, -27397313606540346595, -10257011424529077159,
    );
    lemma_next(
        189,
        16393428276725589797, 12711845944192250702, 13864442692912235988, 8130855283880622915, 15053176689976975360,
        8526087127784368171, 13033449338670326852, 15099080424913748392, 15225609852536339196, 2993540425433955180,
        17858449272807868296, 4162540999359966856, 18019115023958669579, 11085855965339289185, 8976323364884634122,
        5236433019804685821, 6581339523007338318, 13288495309917615504, 747644429654155534, 1273835360549829683,
        5305530750113825279, 12335913547173919621, 3600547437415300008, 24346380892797295, 8028161058792831148,
        -138130684581179407866, -158073025326260458092, -112616269699858164250, -130490004241813930924, -79016553959105842520,
        94415251316202428123, 80655647177886648173, 68194962404132910964, 42700551566880040536, 39984595348903396342,
        51753169019150086383, 62984269689531104795, 48460196176746929093, 40086462504714703627, 24681827581442870388,
    );
    lemma_next(
        190,
        5236433019804685821, 6581339523007338318, 13288495309917615504, 747644429654155534, 1273835360549829683,
        5305530750113825279, 12335913547173919621, 3600547437415300008, 24346380892797295, 8028161058792831148,
        10227232059503511290, 18242628115041759026, 9459472176467111102, 1642094836606457307, 11158596786158563167,
        12484113620665140170, 14105865091098925833, 6208436886457830837, 8615467258115366955, 70267576756060135,
        2047247529148370084, 10065364262095973367, 14672786839381215031, 16760386349871867363, 18082440517817148301,
        77955219775256752844, 33954705292886592079, 7602347881890079542, 19371404846349706085, -11230211943344920966,
        76933314708556796144, 54999365726410826522, 34489704923853316005, 40780220073124257648, 20471741836117479887,
        -24315532484608006403, 1259569415905791862, -21189073961212741610, 320044915675619989, -8536840577206127149,
    );
    lemma_next(
        191,
        12484113620665140170, 14105865091098925833, 6208436886457830837, 8615467258115366955, 70267576756060135,
        2047247529148370084, 10065364262095973367, 14672786839381215031, 16760386349871867363, 18082440517817148301,
        7206304178619198867, 8584497827476260746, 1222806734322453387, 925085103071046034, 8476831689452641209,
        12322673501314436692, 11091139782775314943, 882198734796469201, 11854400113664796880, 18158255314237578802,
        266525225476611711, 8788782364558109519, 10986071774457201804, 4143756687258839783, 15591184198494069272,
        12415589578214046081, -31458010362254398824, 14595771510804587523, 14676680227006254827, -11518567560597181305,
        26852114343101678209, 10217820175688967401, 7500954167877618135, 13546958657293473653, 7565090790535892311,
        -20876292595632715178, 4511179719598538727, -3692068615546714986, -23514630256338951552, -7995005245888505058,
    );
}

proof fn lemma_doublings_17()
    ensures
        doubled(
            204,
            z(12050747930397007894, 14437051381298359104, 12354534747178467741, 6621561312240610597, 13320353456372384871),
            z(12012715815360834155, 6880552989067903460, 6740390483975039389, 14977526782473047753, 17893495574222306900),
        ),
{
    lemma_doublings_16();
    lemma_next(
        192,
        12322673501314436692, 11091139782775314943, 882198734796469201, 11854400113664796880, 18158255314237578802,
        266525225476611711, 8788782364558109519, 10986071774457201804, 4143756687258839783, 15591184198494069272,
        10055953576163316045, 13803643138376749832, 16075481445559060756, 9482288029985002305, 891785777953478789,
        5966102031585790529, 14398598153694552760, 12672819538002296677, 7744141896875773892, 5589917079844916148,
        10838742753337365392, 3003317034225590522, 1490078872016104491, 17680523565645367146, 14213246575458845829,
        -103027278206059181331, -21177316252207338443, -158699739151152739609, -170490480741188800802, -64262135942134597279,
        59066013262786656680, 34335287571168779253, 30606277708128959455, 34526047414087482945, 29172457461865047434,
        23763341216792891701, 40440214858946775210, 16614870035708692775, -4374230166275568020, -1740703685919454209,
    );
    lemma_next(
        193,
        5966102031585790529, 14398598153694552760, 12672819538002296677, 7744141896875773892, 5589917079844916148,
        10838742753337365392, 3003317034225590522, 1490078872016104491, 17680523565645367146, 14213246575458845829,
        3749306814206234950, 14960545075508285386, 2954153748159045884, 2324329205114414017, 9045236858484299551,
        14038864953648720883, 17133411578237003350, 4086201813889346286, 11550636258142889088, 14830498656004690025,
        491117389265833060, 12675328793982475877, 14328685777791059245, 11868709122859168171, 6727268165118770278,
        -79569964356505912712, -76115848445830645749, -28838015746790310672, -34509948813983013234, -26914585380783366787,
        47010241794613864283, 15651379293677051981, 20172373742300751798, 19042367337533882999, 7920109038435687879,
        -26729449383168583559, -350172849684415620, -10858014153665695837, -8858137689674648850, -7893180276485771593,
    );
    lemma_next(
        194,
        14038864953648720883, 17133411578237003350, 4086201813889346286, 11550636258142889088, 14830498656004690025,
        491117389265833060, 12675328793982475877, 14328685777791059245, 11868709122859168171, 6727268165118770278,
        758565541464342653, 18224794740683417716, 17182948192461935110, 18218863948162450979, 16115963489868225910,
        12714755011272878849, 6217492742703175912, 9201994642802343895, 4123308354658928704, 9876574291182614293,
        1519684961674126142, 5663668165144179629, 16949210733140673493, 5005524072350468918, 12920450615594587862,
        -68446706458523981732, -17408886437126083483, -104334173465006635622, -93687526568572694623, -58210732131855046992,
        197387622442585166814, 145551377385122316967, 114919966225737874309, 77689842972490250634, 53330487253042365745,
        48945071512553099203, 24199164123757475650, 45952395901060050097, 19710962471398054045, 14714246930983156712,
    );
    lemma_next(
        195,
        12714755011272878849, 6217492742703175912, 9201994642802343895, 4123308354658928704, 9876574291182614293,
        1519684961674126142, 5663668165144179629, 16949210733140673493, 5005524072350468918, 12920450615594587862,
        10482939559558689292, 6262035747324982286, 13591512864213655545, 16518079072628974681, 10284782001171645839,
        11209238405914887207, 5050070024635760578, 17859345827847573278, 11887395477007830974, 15509742422790835174,
        13352419765721500639, 14030710468587821153, 11221885957035167081, 9995399155244629313, 5200191982338040935,
        36945105368849677114, 25488345932528798845, 27430001660130973846, -11767875250264011987, -8058073350938497617,
        99928104135233387193, 96957184844326974235, 72830205506346100122, 45204039653051032825, 32918130110983948613,
        -43346863700021818936, -46614434044784144538, -31533205875486371989, -14564929888503818174, -10330829147352559872,
    );
    lemma_next(
        196,
        11209238405914887207, 5050070024635760578, 17859345827847573278, 11887395477007830974, 15509742422790835174,
        13352419765721500639, 14030710468587821153, 11221885957035167081, 9995399155244629313, 5200191982338040935,
        46485174147890747, 8367230872889321118, 16260464696975111717, 8754050748914788678, 2654486373530519625,
        3284986960737607823, 6572241478855395758, 17976073958806365487, 6561381936952964576, 9539085815223303434,
        7622056566617639886, 13434129195378683689, 14739384453474604107, 14390098663343904909, 5399706386306516605,
        -192870934676839415588, -279805414146337138449, -189405262593095644758, -137910233252523079182, -81908232128570411622,
        53523589752384163268, 26544370532927167580, 11435478440526193899, 15941180958681209095, 22288151584662533265,
        21405676196917311775, 26911700665266282967, 17093857187888336147, 4956758386378355334, 2745911658643526191,
    );
    lemma_next(
        197,
        3284986960737607823, 6572241478855395758, 17976073958806365487, 6561381936952964576, 9539085815223303434,
        7622056566617639886, 13434129195378683689, 14739384453474604107, 14390098663343904909, 5399706386306516605,
        74229630167998394, 11087020998869921832, 5642356942592336565, 9678668845941669457, 17143782652888665216,
        7000733934390202230, 3275970158627814402, 17219357457150314953, 18005356413357930244, 14575704041378908226,
        11254131690741643758, 324932729686464078, 1430492603290711699, 8388248460442444811, 6808450489419111017,
        -10766133905460218922, -48678298422385365079, 30865252391325817236, -25673413339568359494, -22148163111963309363,
        79586370380435595822, 46786788282000581285, 60679199588841402909, 54658892375994466688, 13498130276800533747,
        -9216171590019778652, -22745230464680267403, -38987144883958487389, -14575176999613644619, -8390761341085179436,
    );
    lemma_next(
        198,
        7000733934390202230, 3275970158627814402, 17219357457150314953, 18005356413357930244, 14575704041378908226,
        11254131690741643758, 324932729686464078, 1430492603290711699, 8388248460442444811, 6808450489419111017,
        907224747750139781, 9411543417716986599, 5851230490483931735, 13117930022620850148, 6992843684456474954,
        7766668281334798766, 9987863494809297262, 15015150736024152569, 10151303285251135055, 13264745754784349159,
        10540673417623103830, 745170376359740225, 9323312925680726712, 3721816727522404424, 6384967911848186854,
        -312339869688197133303, -347018724531242794877, -241299084696061049102, -129017453401796380120, -81465019823447509701,
        46416861313883151371, 42219779956869234344, 35214003834046707388, 15213504803761555391, 15929369148254633346,
        6512010935541514396, 19788972674716610192, 8169813112141575779, 328082268882007996, -292560510877855077,
    );
    lemma_next(
        199,
        7766668281334798766, 9987863494809297262, 15015150736024152569, 10151303285251135055, 13264745754784349159,
        10540673417623103830, 745170376359740225, 9323312925680726712, 3721816727522404424, 6384967911848186854,
        1730417953866158139, 9575249531544592926, 15737549327901281234, 2442173770382417696, 1146620201235416237,
        8977176304514907372, 8293549843896793332, 14556099319686080599, 3782765515629974433, 12056393448621463278,
        17272596109893687231, 2551579632028185426, 9746379095187309411, 8880044499389464219, 10697094271752635316,
        -239221594482518657859, -219656958710427662624, -158580223929777326798, -143448387498411033873, -80675721506759130891,
        16234429962750596213, 8635722208912091008, 8833643133560972743, 17009944888575458420, 16176706772306427078,
        18566047379747436917, 5238255957734298811, 1557309955050214093, 2346235248957846870, 3959801917242835819,
    );
    lemma_next(
        200,
        8977176304514907372, 8293549843896793332, 14556099319686080599, 3782765515629974433, 12056393448621463278,
        17272596109893687231, 2551579632028185426, 9746379095187309411, 8880044499389464219, 10697094271752635316,
        9163597669291067564, 227659402119125393, 12474319623962651128, 18180617599046155105, 973454626656652642,
        10134217391741755495, 552314352604632287, 8139009620419042683, 1883988029922803628, 3757506497138147070,
        18088013264105487422, 5483588926457335428, 14969579342726049921, 3220276762240517904, 4304599673276376596,
        -51978644693756977155, -100480447392212912960, 984230835193639956, -71281800540063119864, -48984957701728143413,
        78390323123811260973, 57930875393204169204, 18152751396733242372, 18524806483639466726, 9851457772625806584,
        23783620366652475497, 27297290973870422850, 27338942996707460823, 6430795442652070378, 16053937634476201532,
    );
    lemma_next(
        201,
        10134217391741755495, 552314352604632287, 8139009620419042683, 1883988029922803628, 3757506497138147070,
        18088013264105487422, 5483588926457335428, 14969579342726049921, 3220276762240517904, 4304599673276376596,
        2512372543344310549, 12873194035309296024, 1186338942381901597, 18346770986049806339, 11149751178782806130,
        6419224479481783602, 724576086732982123, 12612059980768953880, 17813159689056162240, 931759295214298477,
        767486412117342543, 14004734039293685284, 16853443114053916901, 15228756809563393797, 399497897372174353,
        99720941089710783376, 68511619680489185419, 17638279658504770717, 59505954452918920802, 16868771750477508195,
        54107240149607765987, 62550921458453140318, 75842748115841631736, 26871009991989508642, 28720252267587225124,
        -10310203531072324933, -52525197098839398615, -20943380389419055877, 3516633557776155528, -8944979184462400243,
    );
    lemma_next(
        202,
        6419224479481783602, 724576086732982123, 12612059980768953880, 17813159689056162240, 931759295214298477,
        767486412117342543, 14004734039293685284, 16853443114053916901, 15228756809563393797, 399497897372174353,
        6618314189809548668, 16407546364535384999, 17005258951154918731, 17667294961707791442, 9732296264628125872,
        7414381326459859210, 10917905168357791239, 12896397492789484320, 9277001525051517515, 6766294813847627968,
        3865949821320387200, 15233570946152252078, 4267868451057024406, 18058986585955483993, 5210219522387926409,
        1515497303393614623, -13305690532736300107, 46310376145455911067, 28875338253468411025, 54073748788719200480,
        152033455881158868390, 116366434563156954903, 82722455397512679561, 58332101044153776767, 54088436399227513307,
        -9268989464271416185, 3398247557628246705, -13339176427855544025, -16774912575440846078, -5050556554871830603,
    );
    lemma_next(
        203,
        7414381326459859210, 10917905168357791239, 12896397492789484320, 9277001525051517515, 6766294813847627968,
        3865949821320387200, 15233570946152252078, 4267868451057024406, 18058986585955483993, 5210219522387926409,
        9143877018072283565, 5867301967636865056, 6635736142174247940, 13828018257963878219, 6771718443407948361,
        12050747930397007894, 14437051381298359104, 12354534747178467741, 6621561312240610597, 13320353456372384871,
        12012715815360834155, 6880552989067903460, 6740390483975039389, 14977526782473047753, 17893495574222306900,
        -92265402435949452019, -34035108966841155410, -31824082685551371583, -41656797772751029300, -30909165966055440960,
        47301316074862254727, 51529639019659461301, 38901966533244248029, 25387658788155570966, 17896861997340157331,
        -8343435855781519231, -3723592693314309364, -14333267646834700097, -10470699615923015257, -6549262313089942795,
    );
}

proof fn lemma_doublings_18()
    ensures
        doubled(
            216,
            z(12693324768771797196, 10824022591737684994, 10126210800367531183, 5444566403393388071, 7353990007461403857),
            z(4277509136619755547, 14486623226443801283, 17815686791669439515, 2620479049846680938, 11787133185194802136),
        ),
{
    lemma_doublings_17();
    lemma_next(
        204,
        12050747930397007894, 14437051381298359104, 12354534747178467741, 6621561312240610597, 13320353456372384871,
        12012715815360834155, 6880552989067903460, 6740390483975039389, 14977526782473047753, 17893495574222306900,
        4127069184540375193, 3221075852447715499, 3821720108534629941, 1128909950187006489, 16334342518776292335,
        11843478196835395697, 9328131931029477933, 15711259505394170115, 13447559444984994725, 6495974620488353404,
        14110681989788470030, 16991309544826534459, 6976991089912491648, 738814168364759068, 3814342969898839485,
        -209320997402387100731, -167733557274469708836, -71846390965210524984, -62092231702953024951, -69981049195226036533,
        19439956632223831488, 21953046503417490926, 8270312985974113120, 45231316327168696868, 8494945041602681027,
        12334099665198617828, -4749477419588028358, -16696027074098313184, 17086508080492959668, 135649312970824874,
    );
    lemma_next(
        205,
        11843478196835395697, 9328131931029477933, 15711259505394170115, 13447559444984994725, 6495974620488353404,
        14110681989788470030, 16991309544826534459, 6976991089912491648, 738814168364759068, 3814342969898839485,
        9653970076126806946, 8041388692437106123, 75995667040344307, 14940958881457861562, 10531075658941265946,
        16206996773601589716, 9516785822532947456, 5660127384159173662, 11584058707968904458, 9419378108770626675,
        18386041849060188305, 10971442651719829805, 9137802317878997287, 9225903327957894170, 6253767526596649337,
        -171229470374062932586, -166080667433493976612, -116613631046834636579, -77140371824839339714, -57639457176284739417,
        32966178806351427798, 44981450498829550098, 54762914174942485433, 33741023486671246946, 24049299314869634850,
        18015936777628634723, 19705301640995901906, 1248097154011511761, -3185060610340360194, -3320081182224207256,
    );
    lemma_next(
        206,
        16206996773601589716, 9516785822532947456, 5660127384159173662, 11584058707968904458, 9419378108770626675,
        18386041849060188305, 10971442651719829805, 9137802317878997287, 9225903327957894170, 6253767526596649337,
        15112199539902823879, 9043902593892869738, 5873028600277661293, 10926238300349597344, 1896716588321406730,
        8151869423314428300, 9611081016791584092, 1112269185540401791, 6759933098705179932, 18196845468244785320,
        11885182342352271290, 12316347144980988312, 17845424764063477636, 17724076831781883610, 14525708384963139808,
        -88779863129905904261, -81285646246886743379, -85684556654967809716, -65172727602015943163, -48832621582629167492,
        38831869345872252181, 37856620844089422588, 20797426228684938783, 24246109979145752832, 15691183916752067303,
        6348875903778789425, 5463319743535985334, -7864844064076694014, 8215372510470450818, -2605349362784249853,
    );
    lemma_next(
        207,
        8151869423314428300, 9611081016791584092, 1112269185540401791, 6759933098705179932, 18196845468244785320,
        11885182342352271290, 12316347144980988312, 17845424764063477636, 17724076831781883610, 14525708384963139808,
        9672122629192485300, 13867189354367207334, 5262317557191901911, 13374249398735426373, 6193709902352734638,
        16246632565268656714, 5808672461462002503, 2615672128194865393, 8281519829010914411, 14261923168110096671,
        11289591888785974021, 13820898753133653685, 17967958917145056481, 9031560167633325791, 9679344694599412549,
        21959866949807491701, 101171752443471589357, 4904812467498357708, -84013158093965241636, 8320134045133120917,
        55899476078647704536, 54232961614761687048, 42886258121848775025, 28175595305081369605, 28104207729118972494,
        3887762903966431428, -5547807529031782885, 6786970284091301680, -2748536255246124906, 529376982893837500,
    );
    lemma_next(
        208,
        16246632565268656714, 5808672461462002503, 2615672128194865393, 8281519829010914411, 14261923168110096671,
        11289591888785974021, 13820898753133653685, 17967958917145056481, 9031560167633325791, 9679344694599412549,
        7896685681636475369, 1652453991786293610, 5089858020731678411, 11657718970414226970, 12905069683833190078,
        16626965094341409814, 18068113062183015704, 11580904722643343454, 17724257271749201978, 3962034025066518339,
        9245050163240456038, 11487946845037896342, 18365769231389184701, 7971568653019576231, 10203869358455210958,
        11063941519826041489, 38988880260926379974, -35857610013114242509, -74465871931976755407, -39039380674274466089,
        29616318880379803939, 44881356072768603958, 53439169123813928178, 37977361498266557292, 14541802073203490524,
        -47937942600352935374, -33474509159051624804, -5331430770025575679, 13148595476225239382, -6924029176025956510,
    );
    lemma_next(
        209,
        16626965094341409814, 18068113062183015704, 11580904722643343454, 17724257271749201978, 3962034025066518339,
        9245050163240456038, 11487946845037896342, 18365769231389184701, 7971568653019576231, 10203869358455210958,
        4540016631281726649, 5364237891436636734, 9754091300414556415, 14636853037053489178, 8038506471929245769,
        2258477409811766442, 11831729376400176856, 17445752083209681507, 6108583668321590923, 4354524124222671129,
        4924261778955081483, 10571603578751971439, 15167735219625712423, 16734743042418122068, 1188631679977442531,
        -149987749914437508969, -166382564737473672701, -89326309550514980908, -103467893764434990511, -92031979525518804718,
        61579957851991407187, 62985088906334742730, 44630811037109346543, 23386371167210912908, 17627139259112340604,
        15812160067732080716, 25073313707389274608, 22218664871630936596, 15338723716843397100, 11389721688939835228,
    );
    lemma_next(
        210,
        2258477409811766442, 11831729376400176856, 17445752083209681507, 6108583668321590923, 4354524124222671129,
        4924261778955081483, 10571603578751971439, 15167735219625712423, 16734743042418122068, 1188631679977442531,
        16030997372839641564, 17564197589728214843, 11716456406747841119, 756995954478884897, 14661256662900085796,
        757352093706466975, 4353771429888242338, 15755132616728729274, 18055862446420237275, 16839373896420031793,
        9325064098010508481, 11961170218374664965, 11960725562395720917, 14177552156732556752, 4154683661797739014,
        -21819706214761532997, 7707495131235463738, 71307976621042849604, -3404764232450676195, -14307412466348314271,
        100575363545804663903, 86493864760597121025, 40697971944830103865, 58585322581249862337, 34365768586308727540,
        -39084714379564971229, -13301085268990186207, -20480838578425386561, -33730162062483870620, -19651799847012042432,
    );
    lemma_next(
        211,
        757352093706466975, 4353771429888242338, 15755132616728729274, 18055862446420237275, 16839373896420031793,
        9325064098010508481, 11961170218374664965, 11960725562395720917, 14177552156732556752, 4154683661797739014,
        14521180038638725086, 18442768292590843312, 10620550006629842977, 8983334258441841664, 17360438637385067570,
        9279132793387286052, 16674432506562136412, 4531155782727785516, 6261565346446232964, 5394567963931148791,
        11158384015414081574, 8647733458668931251, 103991918508238517, 2778846244771105986, 8109028803814025002,
        -158146953506134190154, -258219456847173450084, -157968445943972774248, -72554542676740620493, 7778336459389377836,
        146603630826592004962, 102131131314814958924, 85885578113977722524, 84394102137567596402, 51409576309393156768,
        29602575366721063692, 50469093946819931950, 41630780739425965711, 41574961117486782338, 13243199705402875968,
    );
    lemma_next(
        212,
        9279132793387286052, 16674432506562136412, 4531155782727785516, 6261565346446232964, 5394567963931148791,
        11158384015414081574, 8647733458668931251, 103991918508238517, 2778846244771105986, 8109028803814025002,
        16126155520987319144, 700642768981232427, 15505226519479303255, 9996441033023085191, 15402204520459831287,
        11098244592287919529, 6693149825688127264, 11914195837743026265, 18228053632907318946, 3096745964209970898,
        5149982113108197960, 343680907329050503, 8802921378333273443, 5445425776803127821, 17116471625357494854,
        -50428125782784283039, -26886839131735335905, -31969002458729220042, 14450218748021799479, -11010595232107464520,
        68021979496271942787, 95153478674829744721, 77215451085372975294, 57236078274388067891, 40721365557539895515,
        -18504396111483913708, -23496950983813219631, -33843005049121410508, 2418077321538888908, -761431675013276524,
    );
    lemma_next(
        213,
        11098244592287919529, 6693149825688127264, 11914195837743026265, 18228053632907318946, 3096745964209970898,
        5149982113108197960, 343680907329050503, 8802921378333273443, 5445425776803127821, 17116471625357494854,
        618332409772748855, 15846651112873181760, 14686122222065759493, 13458909820333343631, 8955150127275878705,
        3633892451861403745, 14393857441938004525, 11488145031548571777, 7253768160051397218, 14039263994393957762,
        14018851900109358454, 747158125546393779, 17680329508505049237, 4936451011681406628, 2669807735233655353,
        -98051913004843597992, -82157947613339309845, -5202291966486870058, -23008595414424127392, -43924940078853541707,
        110468944181473729120, 73298698524966076020, 53800145239154427693, 39176561949314433135, 35416223000877127041,
        -12021779662006535173, 4660210900421758451, -8626918969192205720, -15887352811351801098, 7404984745162267246,
    );
    lemma_next(
        214,
        3633892451861403745, 14393857441938004525, 11488145031548571777, 7253768160051397218, 14039263994393957762,
        14018851900109358454, 747158125546393779, 17680329508505049237, 4936451011681406628, 2669807735233655353,
        4177788446586931759, 8649090145937817747, 5126855836516964839, 14968838731344246585, 2933052329305591927,
        526091401088659974, 12506219003261990858, 4200216108106332594, 17734258346761843096, 3454068867341185279,
        9058957864017555671, 11040404958875950688, 10376234356832360239, 7369172113662987040, 2807775625146128786,
        -171760121810456204944, -141225413714720270747, -112434467717528743423, -113992781388910148376, -50681088814642399829,
        34158970668257062001, 45248665685624177711, 20657896099639487873, 12986950250387950031, 16790262010843665814,
        25496634662626825273, -11326798758247480173, 24168589561387659366, 9139135846434028662, 1534756530558740321,
    );
    lemma_next(
        215,
        526091401088659974, 12506219003261990858, 4200216108106332594, 17734258346761843096, 3454068867341185279,
        9058957864017555671, 11040404958875950688, 10376234356832360239, 7369172113662987040, 2807775625146128786,
        3366498569723084626, 14885267952491843570, 11367485516565789410, 9956324716835517361, 18124161659324761221,
        12693324768771797196, 10824022591737684994, 10126210800367531183, 5444566403393388071, 7353990007461403857,
        4277509136619755547, 14486623226443801283, 17815686791669439515, 2620479049846680938, 11787133185194802136,
        27953806256454761719, -55676012107588036757, -622483398032135136, 33432348786916503333, -20174368429948909982,
        125176648101798047572, 88566553369583467793, 74853788641031489335, 75401260183597740192, 29688425013099611277,
        6421480922375234125, -14288531014026280539, 22687672570908679033, -19564632855977901094, -5493098974856470988,
    );
}

proof fn lemma_doublings_19()
    ensures
        doubled(
            228,
            z(7481083948409979892, 8459438627408146345, 6190771396922278107, 11943989483192157654, 16669515858913527127),
            z(12144918983103575906, 9458307841825598111, 8223233989540232897, 9201211703725053092, 8021520134787572070),
        ),
{
    lemma_doublings_18();
    lemma_next(
        216,
        12693324768771797196, 10824022591737684994, 10126210800367531183, 5444566403393388071, 7353990007461403857,
        4277509136619755547, 14486623226443801283, 17815686791669439515, 2620479049846680938, 11787133185194802136,
        2987398081163305381, 488579109443962688, 11760193129488496774, 1163289142750304209, 8781320494015962286,
        16880979389324667421, 9996322473159821925, 3239799388954276311, 634095738587854930, 2214976188494192460,
        14462422760038382173, 2167773343855743317, 14318726950408491187, 6998569551705220526, 7932149145524446230,
        -96272497183439218113, -29932746094269292840, -75994392234235983096, -30045321363708413207, -33634434178680479025,
        6329019107184776712, 33968001765976941170, 7144607989720557019, 13540424954883148438, 10403215833391609858,
        11415348276376139191, 20596443178759192786, 6309544520833091669, 8564101566671865200, 3408613500901319738,
    );
    lemma_next(
        217,
        16880979389324667421, 9996322473159821925, 3239799388954276311, 634095738587854930, 2214976188494192460,
        14462422760038382173, 2167773343855743317, 14318726950408491187, 6998569551705220526, 7932149145524446230,
        219831316806609595, 11549616932384136634, 5357180791386681749, 18306628531610610207, 17166407075144528059,
        3789094306932784444, 1316262517795270753, 3656939441027970522, 5494207504250334835, 15200372221039040154,
        15282526590416645149, 6424029011528372011, 1197576988366997426, 13633888170934756004, 15391586712479211997,
        69747116836067815124, 91519737621871810591, 62353860983487662083, 75941523819007208054, 32558783170512856663,
        96389497593955602073, 84690130200899235550, 109575067620426031400, 55069453137906900610, 24888723222667891653,
        -5478120755984819477, -18647198910851128540, -42996919686880142176, -21058191443063426550, 17478506786981139761,
    );
    lemma_next(
        218,
        3789094306932784444, 1316262517795270753, 3656939441027970522, 5494207504250334835, 15200372221039040154,
        15282526590416645149, 6424029011528372011, 1197576988366997426, 13633888170934756004, 15391586712479211997,
        10352279829773467503, 17347019750022215110, 8464738278248716867, 325023873246073484, 524701673183563738,
        1181504243500594130, 1061613863379915354, 30039187357822326, 9323934819579934439, 1063200169530196835,
        7264707180793586789, 12962214089505771372, 570465151198977979, 1386057690856683366, 3013281011690238355,
        101294010122086587591, 9385256075326871520, -54874421929245918953, -94448809384744537634, 21851774628941665280,
        9665077525649583959, 20932046298098603164, 25869118935955240804, 16329785612111222827, 5084469213594693774,
        36287830572494351088, 22163659702254444229, 3891906939896914683, 2630597466548915793, 6075291143564557045,
    );
    lemma_next(
        219,
        1181504243500594130, 1061613863379915354, 30039187357822326, 9323934819579934439, 1063200169530196835,
        7264707180793586789, 12962214089505771372, 570465151198977979, 1386057690856683366, 3013281011690238355,
        269972393834172505, 18428879036262874954, 1536957089323044533, 2772606246062405594, 3903459367003160367,
        5558726884601323892, 13923687088226333397, 10369434830809857341, 15856923347746693606, 18055406411618224434,
        17692371490499318515, 11753875715410628363, 16817366175610293876, 10953477453053406619, 6549183148958293002,
        34337851571097626227, -24478924241878681888, 21735859800420443914, 5204948720614052677, 6295446180467198190,
        24788083323122542633, 3741002227148214329, 21976235367618833721, 5630090142502329447, 5782155348384784567,
        -65451517810646769198, -18317976996484283948, -25174871072594990523, -22941562256581865756, -10496273158660837241,
    );
    lemma_next(
        220,
        5558726884601323892, 13923687088226333397, 10369434830809857341, 15856923347746693606, 18055406411618224434,
        17692371490499318515, 11753875715410628363, 16817366175610293876, 10953477453053406619, 6549183148958293002,
        18253576525421649692, 16773823725092336981, 7613760553527801384, 5229814838804130418, 10891128563971375038,
        17368624365852873746, 11279934019949916314, 17471156831434982422, 9245822049706168246, 4406888629184727640,
        5870331990282328277, 3963456274881723508, 1455172215146516690, 12456492053635140465, 12541474371509693524,
        -242663585534331582383, -180677656913435171453, -210440896743072997513, -139485882206309810790, -47624870929997076961,
        90434367247675311994, 64615853372370121920, 48847070000048271377, 43487319319868738314, 34207740358688744136,
        32374544890127147790, 1821332489929176485, 13820380140468880385, 22001813453445159271, 10362811306073970820,
    );
    lemma_next(
        221,
        17368624365852873746, 11279934019949916314, 17471156831434982422, 9245822049706168246, 4406888629184727640,
        5870331990282328277, 3963456274881723508, 1455172215146516690, 12456492053635140465, 12541474371509693524,
        14807258367096259379, 17500684263466627228, 13253095221882371476, 9209854364060743549, 5761445024183017941,
        11757501844996240461, 13813519063799698969, 2438690298689165413, 16772850037347804306, 4588856080215049026,
        1663796834749302138, 2975655210386015328, 13038367499407676808, 15165114847092163529, 8294672444197568948,
        -108892481871842918377, -68954540331068723721, -79947442339905035722, -67990112846076228608, -54974642194125688826,
        84382628029599146520, 66726162172410317006, 55138748262891581309, 45330742342444344283, 36246204056495767252,
        7904461042983978974, 5708640659615023518, 6369011764823076991, 9030232799659187325, 4000616880669569668,
    );
    lemma_next(
        222,
        11757501844996240461, 13813519063799698969, 2438690298689165413, 16772850037347804306, 4588856080215049026,
        1663796834749302138, 2975655210386015328, 13038367499407676808, 15165114847092163529, 8294672444197568948,
        4757650075267273367, 18002285702134164272, 18052043355747432329, 15055537234614029721, 16002603317125695215,
        7673739728822251642, 13928903106796855743, 18050436211782654091, 13058440002944648940, 3516872392988301786,
        13513240847296883313, 5184888550008192349, 9830437459169264161, 17344352792839682382, 11788328523691514291,
        93559691664199210224, -5390209209047718575, 19880937676769956677, -389720173923310804, -26735698640638124639,
        183329649302325266979, 140110519217256033900, 105244569697862080083, 84647131906311426353, 55305912231688163397,
        -23428923031349700740, -24432269994466362859, 12148832947070697758, -8267656476666616512, -7927809003927063678,
    );
    lemma_next(
        223,
        7673739728822251642, 13928903106796855743, 18050436211782654091, 13058440002944648940, 3516872392988301786,
        13513240847296883313, 5184888550008192349, 9830437459169264161, 17344352792839682382, 11788328523691514291,
        14162471777381455233, 16454374414646623831, 1363783333921412835, 13735068349578046132, 11719056172409805075,
        4994999658421711612, 16843569262421242640, 17504329661686474594, 18041506660594529424, 6187184417156020154,
        5693680157602492841, 2110592734706705857, 11566766968150850494, 7690767652206814829, 4881938718586793836,
        -132163943948219982369, -27651709893062334263, 23700332699422422107, -10412037209304007996, -45540084207713067709,
        79685822789591651703, 61144614516553302502, 69125897971850277895, 45858188764871817093, 42598597405209328473,
        -10529435806125450701, -10530627456819583436, -17444424666806237959, -6648848370921463691, -6923038841567816954,
    );
    lemma_next(
        224,
        4994999658421711612, 16843569262421242640, 17504329661686474594, 18041506660594529424, 6187184417156020154,
        5693680157602492841, 2110592734706705857, 11566766968150850494, 7690767652206814829, 4881938718586793836,
        11232187698200030576, 274261068319865517, 3655479411818448799, 10125738730294492238, 6566744379879590338,
        9829941267232958823, 10774724134624661927, 16453868823271721495, 14973065272758407612, 2075456961828311298,
        13738036539428636139, 5751337740271251316, 15551598277113241478, 2186558624764337274, 16621068453078861187,
        -354787687790606492881, -233272344164444075329, -134590098952419581692, -116662757924763535758, -141594735878033011078,
        19464390564470575337, 24816328002125683161, 26083308061285939158, 19452750104969851734, 9022434085340605303,
        7274655135995677932, 12242616176278363534, 9819686097941534516, 4823755464583113845, 4367540458183044434,
    );
    lemma_next(
        225,
        9829941267232958823, 10774724134624661927, 16453868823271721495, 14973065272758407612, 2075456961828311298,
        13738036539428636139, 5751337740271251316, 15551598277113241478, 2186558624764337274, 16621068453078861187,
        18213360290015106492, 6412551049476554102, 12800135076908560802, 5537883927047218031, 4550579892781524369,
        9965114275058486130, 9725851003466151012, 16744692065340392119, 5363954720924490702, 10733522021639468185,
        3308495157278558701, 3792274068840048472, 14946403634999381017, 10780524607724662233, 3617969401956225505,
        -170509447586650759254, -60088604705666238665, -14862674934406797875, -51677471683858338174, -36983842977677379993,
        50530620395019680328, 36596209160147751053, 35702303441677746857, 23202648669493816189, 21718200539213503283,
        11354753875669183187, -8595789714944803742, -702679611576580148, 3666162896918871489, -5128422703645280002,
    );
    lemma_next(
        226,
        9965114275058486130, 9725851003466151012, 16744692065340392119, 5363954720924490702, 10733522021639468185,
        3308495157278558701, 3792274068840048472, 14946403634999381017, 10780524607724662233, 3617969401956225505,
        6616203917043982998, 14415149216326350074, 18129195656643452618, 3837134949249994790, 6847386110077932740,
        14497251546235872457, 43402564142696922, 2633327709498854594, 16657567279488736038, 3997870336506400888,
        10037427695220370368, 13302421976274440002, 15363982230776638698, 1354458495334590526, 6047462999301167274,
        -95650072661089787583, -144969916833683831149, -74160030425414717908, -78584808390663299157, -44501520656453929491,
        57104697010748304527, 53112004955795815218, 32815303481617673532, 38711695821343786622, 28725984622658444706,
        455820800618887625, 28456945713833600246, -199751457343112901, 23050462500859220833, 7790674993353960973,
    );
    lemma_next(
        227,
        14497251546235872457, 43402564142696922, 2633327709498854594, 16657567279488736038, 3997870336506400888,
        10037427695220370368, 13302421976274440002, 15363982230776638698, 1354458495334590526, 6047462999301167274,
        3088405987357878881, 9735262924036699138, 1056160248290997557, 534157875699576761, 11411397690584907382,
        7481083948409979892, 8459438627408146345, 6190771396922278107, 11943989483192157654, 16669515858913527127,
        12144918983103575906, 9458307841825598111, 8223233989540232897, 9201211703725053092, 8021520134787572070,
        -2132669302793606538, -71467016058265917307, -50986818873470398216, -45160973547400777948, -1811531709366530928,
        36834735060299447953, 7226340308214354894, 7474054751623002995, 22471357458816965136, 4445330123880319746,
        -34005928571198052968, -6075359111334577481, 3011403933436539010, -24883508272722985488, 4258978664861745275,
    );
}

proof fn lemma_doublings_20()
    ensures
        doubled(
            240,
            z(14151596165176007363, 12754107251775933162, 11827680866552282415, 18152888634593674342, 11461118681423539978),
            z(756002340177219927, 12285462462891803063, 3273752982308252118, 12156247888883394429, 2699169474347717960),
        ),
{
    lemma_doublings_19();
    lemma_next(
        228,
        7481083948409979892, 8459438627408146345, 6190771396922278107, 11943989483192157654, 16669515858913527127,
        12144918983103575906, 9458307841825598111, 8223233989540232897, 9201211703725053092, 8021520134787572070,
        3742594705224724502, 15224539373030449439, 5800215219613833188, 9846678922412045281, 5884834309713034985,
        6038085690780623135, 14699774144240036062, 15948468975648464467, 14047450653746316003, 18135874573394243202,
        11568835504131508622, 11967318865681291296, 8872635870483210527, 9394100309450931850, 17904576665714194692,
        -112403194380614936413, -106656921893679404095, -151091413574870229621, -130094078553667677677, -38198520344798882381,
        48477254488110073983, 33048089634235667327, 33766324836149493662, 19201724162795576712, 20465069419637509226,
        -26920073148372576540, -14165387186685930325, -11037584279637697991, -11075300637333740604, -7972341014200260935,
    );
    lemma_next(
        229,
        6038085690780623135, 14699774144240036062, 15948468975648464467, 14047450653746316003, 18135874573394243202,
        11568835504131508622, 11967318865681291296, 8872635870483210527, 9394100309450931850, 17904576665714194692,
        147560344565568226, 1114463301031312122, 14519611038647705686, 1049917013177736068, 3161184623642530013,
        13824712220923894497, 7041262241240684431, 16625600912646879715, 4509578861126957267, 16089354324073859533,
        607865893537599487, 5969777061737733086, 8771822961175448937, 11626261213071285145, 8002587311478658563,
        -418300442215078712132, -308902717954110915878, -279483374557640767222, -224526343104829105682, -123431746637767741107,
        6105480677873574753, 15126295690500567489, 1379156943805512491, 3396386048757801674, 11605962702861131287,
        26652345523467053678, 5703799063546930054, -418752795362386242, 6672416542494265506, -838861377781380795,
    );
    lemma_next(
        230,
        13824712220923894497, 7041262241240684431, 16625600912646879715, 4509578861126957267, 16089354324073859533,
        607865893537599487, 5969777061737733086, 8771822961175448937, 11626261213071285145, 8002587311478658563,
        13079664945196823773, 9743157024656421062, 1374919418307742979, 18314303261384663412, 5944317032086906516,
        5894694747471590999, 16995196829122483669, 14764078065420558250, 11243619867399014031, 11829496422548472865,
        7206397353727274419, 501158396593470796, 13330675902714694430, 3249443003019216691, 4474768187935797681,
        -119569348176242295742, -203697542725493116458, -64635654379867150983, -141330771850471455143, -90445610715148514751,
        36302355861153567656, 71023553381435786497, 42505724876842045250, 33170445957090294631, 27878525155052106054,
        6788652041170379264, -20174357056752864388, 2831374830899672040, 7457729849611667460, -7724653151595102181,
    );
    lemma_next(
        231,
        5894694747471590999, 16995196829122483669, 14764078065420558250, 11243619867399014031, 11829496422548472865,
        7206397353727274419, 501158396593470796, 13330675902714694430, 3249443003019216691, 4474768187935797681,
        1657884572154353389, 4104207250674822268, 10814223044696430322, 8941030090630169820, 12320904058314601216,
        3108074055368049068, 9019767376895904119, 5579479414950266176, 14922495823022130235, 2552635917291828770,
        14716451928101115335, 18337710043779957281, 15891422188268446988, 16052926683915428086, 2208578848280014765,
        -304333343447021825134, -182776487216871557554, -167962108721213759965, -139423402692326764981, -92291329677010107742,
        48046181073581629663, 57076776510795322279, 38688205633318921104, 31107280788254206063, 12532963744168214912,
        29308296059196835041, 30706458475337099303, 10351300504478039698, 26327551357268252099, 11126496527546092641,
    );
    lemma_next(
        232,
        3108074055368049068, 9019767376895904119, 5579479414950266176, 14922495823022130235, 2552635917291828770,
        14716451928101115335, 18337710043779957281, 15891422188268446988, 16052926683915428086, 2208578848280014765,
        6092169223498485576, 17793360993689132359, 3229054537692604101, 11448531086752769708, 16754591763943496052,
        12916512190521223648, 4514551971308585365, 15425394531519690873, 15113772937724276543, 9922648912521113016,
        18070575380440213614, 7860507035137265093, 8924479101024533562, 18144014361338960499, 11321761164136825592,
        93190838569171734291, 57541743251397547496, 90690769132413581965, 43349268480877507734, 36063086015211929422,
        111003063902361208888, 50665627736152036789, 81685980521264445224, 59444272387572623873, 33717934200645963333,
        -30722720597650939019, -39027779419139445912, -14866245023472908908, -34940936560536181318, -10454641937365161350,
    );
    lemma_next(
        233,
        12916512190521223648, 4514551971308585365, 15425394531519690873, 15113772937724276543, 9922648912521113016,
        18070575380440213614, 7860507035137265093, 8924479101024533562, 18144014361338960499, 11321761164136825592,
        17386961862698689877, 9784738368428415030, 17297353333352747784, 2686690243973230730, 4015750760699835992,
        5803609952174699839, 10947443881673293248, 7284967716217524975, 325605500690487725, 7084946824635518920,
        1723715010520607491, 14005931693125475768, 8248229063362686242, 16936172276985836492, 14630497699179845557,
        -108089634153156584265, -154569084647109386994, -121812412416375834795, -55720202939533226064, -35092043868003409085,
        44284272915708918394, 42212317523719204510, 41306607707168956275, 26037422972462836121, 26639875490818893232,
        52175738435312170856, 17470134457880485918, 21828045722534554396, 15113665721621400649, 18763509676509182793,
    );
    lemma_next(
        234,
        5803609952174699839, 10947443881673293248, 7284967716217524975, 325605500690487725, 7084946824635518920,
        1723715010520607491, 14005931693125475768, 8248229063362686242, 16936172276985836492, 14630497699179845557,
        8476966812800918344, 3050430767540101645, 12590284004612442661, 3011040995485727829, 8051959745576137253,
        13098474140951151214, 4847904777459400835, 1851518599352975302, 11065539937655823306, 17721430575949887801,
        17063821568972759751, 5666823027500921101, 14922666830097512374, 15679473312822786345, 6536523035238940703,
        46739605700404549970, 40464415592544436480, 37756707946362957430, 25246827469169229606, 13219628280575296055,
        24215103047021385808, 37251813206119169550, 19961715257238917003, 17475318928966559353, 16989317215543171074,
        -19971634141435437442, -18326342469041604635, -20745788309117981220, -14992972684118288337, -5143990118298598834,
    );
    lemma_next(
        235,
        13098474140951151214, 4847904777459400835, 1851518599352975302, 11065539937655823306, 17721430575949887801,
        17063821568972759751, 5666823027500921101, 14922666830097512374, 15679473312822786345, 6536523035238940703,
        7144586651752054586, 8358252118732632605, 11694089477750811775, 844383727464305570, 14918765040096788141,
        15310862694365459806, 15832854086615379643, 14167110387329223518, 4992122084266105047, 16199239321395576152,
        12141768016294233419, 5489054551622030554, 2520365385403703411, 10637312278099106662, 6522856016912466478,
        -9501865977798431235, 9022336830520460813, -86849390833348765273, -137151131524004858025, -27195093909419468608,
        46537194065291932852, 63335822296809445857, 16942947930583448263, 47447857974056813694, 19734848092116483663,
        -15580616255740076396, -31408690561671366336, 3794868292779982026, -6599766580819810106, -6757976603386419924,
    );
    lemma_next(
        236,
        15310862694365459806, 15832854086615379643, 14167110387329223518, 4992122084266105047, 16199239321395576152,
        12141768016294233419, 5489054551622030554, 2520365385403703411, 10637312278099106662, 6522856016912466478,
        8852724914316029953, 62074456459860092, 3780098017075797464, 12737409256994015597, 11721763568725923520,
        11440903394492496255, 3695136440953125578, 6643695413363804314, 6578123249748434003, 9394884704369921492,
        8415676934418327905, 7341352432964348415, 3291446620981236383, 8202801239457642406, 9211199745348416286,
        -301170258942066886703, -247895754859728088684, -115218298110077293577, -171735450058295155958, -108645761892564277850,
        20146016146485159830, 40857092634641386995, 52191410263808915178, 34596353518423113241, 12111057239144733908,
        39673880048343812031, 21077644847773771992, 15516144541315343922, 17394869503593121459, 15641985352806783845,
    );
    lemma_next(
        237,
        11440903394492496255, 3695136440953125578, 6643695413363804314, 6578123249748434003, 9394884704369921492,
        8415676934418327905, 7341352432964348415, 3291446620981236383, 8202801239457642406, 9211199745348416286,
        17121020602964875020, 1058981509481507906, 1664343927001691342, 17000043743705305277, 17221786983705719584,
        5305969841077387626, 18011987069008110867, 2244580566447491533, 10664303756292536284, 4606498095991856271,
        10824482459341709083, 11521141812223974264, 16092506444375851183, 7119780437549011405, 11050924880738814354,
        -15248667082163685444, -12393246223370099892, 18105078814816933916, 8510641896135700852, -2166340479398470358,
        31025431131421700652, 58289094583425466532, 98377185737736394003, 79982193738215648622, 34070220839411794433,
        -22523405000657452593, -10615837231855017078, 5608634753276122837, 14233335569926643102, -2859911303511886101,
    );
    lemma_next(
        238,
        5305969841077387626, 18011987069008110867, 2244580566447491533, 10664303756292536284, 4606498095991856271,
        10824482459341709083, 11521141812223974264, 16092506444375851183, 7119780437549011405, 11050924880738814354,
        2481838295416136044, 4100431403887253845, 3956479047313236001, 1895214281423535094, 11176731703332847868,
        5174062724363956464, 7670010766094648510, 15743138028792106474, 12784934762369686935, 1141736735037381179,
        11291229180557227185, 7186721542435223444, 192210087939432924, 16456044147348582476, 935186393089383556,
        -30281351996084030431, -11636844333278988123, -57781001620357190321, 14502634983640821135, -42720940039729825663,
        17679342418376151064, 16070681882062876392, 8865848020366432125, 22584569166749509211, 4698596129312201444,
        15601573378643550833, -21539500863541651180, -2275662321861727464, 5243687271477257123, -1757965121068574644,
    );
    lemma_next(
        239,
        5174062724363956464, 7670010766094648510, 15743138028792106474, 12784934762369686935, 1141736735037381179,
        11291229180557227185, 7186721542435223444, 192210087939432924, 16456044147348582476, 935186393089383556,
        14510458490592387486, 2077978746556234327, 1729783505917278324, 2048047323205600383, 16214329340040662301,
        14151596165176007363, 12754107251775933162, 11827680866552282415, 18152888634593674342, 11461118681423539978,
        756002340177219927, 12285462462891803063, 3273752982308252118, 12156247888883394429, 2699169474347717960,
        -143614933030864743915, -83842981847630936702, 41144014604992970602, -26707743180188327163, -47463918350980155662,
        23525434374647198539, 13073961345736554713, 13756583874723137552, 46367995494839736803, 26132441175819687214,
        -24161619401325096534, 623388082203220974, -15926703249037406020, -32466521180728557556, -16810430996673283558,
    );
}

proof fn lemma_doublings_21()
    ensures
        doubled(
            252,
            z(9615911147342922756, 17229041161076215085, 7269048510162393783, 3016294398020371321, 9526553094653998126),
            z(13944443025763263914, 10410174651297822923, 5540856351571377897, 8529860005285020487, 16723015179313247275),
        ),
{
    lemma_doublings_20();
    lemma_next(
        240,
        14151596165176007363, 12754107251775933162, 11827680866552282415, 18152888634593674342, 11461118681423539978,
        756002340177219927, 12285462462891803063, 3273752982308252118, 12156247888883394429, 2699169474347717960,
        8969908152288533406, 8596388768381203649, 9668926382401564148, 11312012039487438789, 12359346048026265888,
        1072550296104104279, 11196647618311766724, 2706848031861246123, 1475342302332552089, 6902968550330222380,
        11191550125796663958, 1306879152713144563, 16854258064876782215, 16190974599565849402, 4961901804504561908,
        -276766940610537920502, -272726761045899554003, -209684670389919965716, -157180826127602778046, -117344315909610142287,
        74494652187946011135, 68039764754528637807, 58883621234474715496, 44855147305482088111, 27630753682313854426,
        58866924766595652093, 63034022975514327489, 53923778405352364051, 30358681886602685927, 24487138517168132067,
    );
    lemma_next(
        241,
        1072550296104104279, 11196647618311766724, 2706848031861246123, 1475342302332552089, 6902968550330222380,
        11191550125796663958, 1306879152713144563, 16854258064876782215, 16190974599565849402, 4961901804504561908,
        14730261262505344879, 12838843025672488085, 11314141076417014163, 17767228253226971898, 10650934078878552761,
        14316097344233491515, 10711381645297927901, 17149228729719020518, 2010908438046316209, 10952321062396136428,
        4746728249515464795, 7625885132284476747, 9606343674311185141, 9406499070346386412, 7926103823477073520,
        120603522404903578110, 164680970157780087936, 95960426120793773354, 56049216227572078562, 57605448382711565395,
        121624725462425942682, 111038524762760617631, 88556650076605511923, 62573643163063794970, 48681392084696482199,
        -60906354829980043378, -42844941767678954690, -31945978900885163026, -29951703202082442792, -19643657254550094507,
    );
    lemma_next(
        242,
        14316097344233491515, 10711381645297927901, 17149228729719020518, 2010908438046316209, 10952321062396136428,
        4746728249515464795, 7625885132284476747, 9606343674311185141, 9406499070346386412, 7926103823477073520,
        1589773752979280414, 13359146793774790660, 13325457954256312743, 15101810620949753205, 14654855991248186144,
        7310268513810695703, 6811294949429092445, 17124052419642783232, 6009720680838427587, 3249756014939450616,
        3031915444934264301, 3032472416228054781, 10041650940977714065, 12754731863459252994, 15585980990464659824,
        -21889602304364507340, -100586894755366071014, -16675016207493007073, -55529995285331941926, -56936512940104203390,
        129270339576477344233, 102910632404386813060, 83956544470761444136, 56830887366000386943, 34025421940048461129,
        18029469592766397312, 12341024540776462686, 17274577827673078198, 26584106742887212034, 6544671769359664250,
    );
    lemma_next(
        243,
        7310268513810695703, 6811294949429092445, 17124052419642783232, 6009720680838427587, 3249756014939450616,
        3031915444934264301, 3032472416228054781, 10041650940977714065, 12754731863459252994, 15585980990464659824,
        9536948169946572943, 10103908246186234385, 6058761185380045275, 13276025583999302966, 3842549540104813998,
        3178310843186689027, 5476717836112332214, 16073275128657137707, 9328008197400756143, 10070537271067580279,
        14859919997250491172, 8184987836329995352, 12272529540997740660, 11092797883282908633, 10809517687192203578,
        -4064530503963508464, 16681485057545977570, 31622045282588572499, -7354943771055043142, -26417312301623211608,
        43721515097509129776, 46683902657018395094, 28391777903349850072, 22765829531999776001, 20506625236213621122,
        -9238624299193503886, -10275404593844363693, -14168920698911786093, -1990328941594686571, -3177556379986329662,
    );
    lemma_next(
        244,
        3178310843186689027, 5476717836112332214, 16073275128657137707, 9328008197400756143, 10070537271067580279,
        14859919997250491172, 8184987836329995352, 12272529540997740660, 11092797883282908633, 10809517687192203578,
        1203011505763098926, 8995918259291188545, 12664476407499335326, 16027578863012643159, 18316938939311142723,
        5305517988910947609, 15298164318641757185, 3285176380082220217, 3703455988531382822, 9988759984823187908,
        12350215308450363679, 12326577604007405820, 16663767465087230925, 15535680269303782830, 16675201501027042957,
        -9757322765748603504, -15026835117086051572, 39270489958056008802, 27123196996938600317, 3771404111135803997,
        119695850248961977187, 118402514670347358398, 101527654973609523928, 69006794055900125847, 26716124867474245396,
        15641472169831990051, 51245674322115797817, 11552019613851873964, -1744298977545777712, 882162961774416201,
    );
    lemma_next(
        245,
        5305517988910947609, 15298164318641757185, 3285176380082220217, 3703455988531382822, 9988759984823187908,
        12350215308450363679, 12326577604007405820, 16663767465087230925, 15535680269303782830, 16675201501027042957,
        17152241424183079977, 3123958377840478217, 8167012513010468757, 12252026870606145625, 3802751867554604863,
        6504800736667666952, 715678055498607415, 1936093163832673672, 18281451137185987550, 2139185235150978929,
        14583523079485519901, 11132140500707797892, 9908278828699631871, 1127013796707370951, 15003597362115363402,
        -2725355379487139424, 88813204311379145993, 51940577688816322665, 11063564395937329172, 35072857638754316723,
        52358939558322471535, 40323918065100802174, 30871180456545031291, 27902432175892848981, 14837370353856076336,
        -4783143128587024845, -4431174260598925659, 9818016160794369221, -2812374574714478706, 14865450965798199274,
    );
    lemma_next(
        246,
        6504800736667666952, 715678055498607415, 1936093163832673672, 18281451137185987550, 2139185235150978929,
        14583523079485519901, 11132140500707797892, 9908278828699631871, 1127013796707370951, 15003597362115363402,
        11308293036045876429, 17628945496236271112, 10470619354023202211, 1526019602424194567, 10491441120579386191,
        14996965678996903566, 16433564137098662992, 5055899120260658516, 18267750405563947349, 17257019036374628703,
        4232691657409786684, 3454617977939084918, 4063871461228415118, 6161949426619963490, 9613851487974798793,
        107742344787662446641, -41623401649310902227, 18933942835993789279, 45206825844714360703, 40836527786065335472,
        72287335413981656345, 57723145360631816307, 34892350085289145824, 39784599227477222264, 21723003369454630526,
        -76117953797015947047, -48814071445687147884, -25482370914701226164, -38391748515610148287, -17155467405449582926,
    );
    lemma_next(
        247,
        14996965678996903566, 16433564137098662992, 5055899120260658516, 18267750405563947349, 17257019036374628703,
        4232691657409786684, 3454617977939084918, 4063871461228415118, 6161949426619963490, 9613851487974798793,
        7521817318147836603, 1061760965960505202, 1024398567022788860, 6567933779221927766, 15858917607666371381,
        2717341609269205772, 18311093689617275755, 8786027638050447104, 11417169388336709850, 17989660612957073365,
        2641392403259972925, 7973156194899548813, 6378191335902346520, 12846422450127675948, 7910102835539965944,
        -368099766504188508771, -287478666777584054136, -319689817825643150026, -202947932372210254779, -167241426674593599902,
        10732360399333503997, 13165527767111600181, 34775781332622323224, 46376570778839977851, 13746182259284596099,
        -2804824314037700872, -2483954601342779694, 15938908839020064033, 4956973744315848321, 9776890763913098331,
    );
    lemma_next(
        248,
        2717341609269205772, 18311093689617275755, 8786027638050447104, 11417169388336709850, 17989660612957073365,
        2641392403259972925, 7973156194899548813, 6378191335902346520, 12846422450127675948, 7910102835539965944,
        18135982033309509104, 1880164265640320810, 4549616188057388171, 15000447663738918452, 11739569565426900601,
        14039222915787631988, 18436896143205599274, 9347530004523596911, 1401055149289196262, 12836055180461636871,
        10057533413324887145, 15273463499946366804, 14152765831028085698, 15806793476784399537, 5569715587404691720,
        -329909907997575514935, -119056815636041843679, -159595056000148025477, -155321595866448377531, -58805743002590922794,
        47207541520359619576, 57663333509254209954, 66415586464026227341, 52836220163165602837, 27263503105633567928,
        -3754326263623940039, 25898089909691159256, 28337989230866649036, 10391754667754737138, -1358401834432954129,
    );
    lemma_next(
        249,
        14039222915787631988, 18436896143205599274, 9347530004523596911, 1401055149289196262, 12836055180461636871,
        10057533413324887145, 15273463499946366804, 14152765831028085698, 15806793476784399537, 5569715587404691720,
        9381190978246233155, 18213961141500307616, 14881808792095214120, 540062040493319015, 8234209426881275012,
        17861459102169696214, 15180900947052580586, 17545028102172830287, 2933811736744452754, 16212533279741559669,
        14106145704669628027, 17355421408125245816, 12417623333194564293, 6593247091073882919, 12663816467903300803,
        -112628356064786666581, -99190132475409561963, -11417016839806816100, -58664808980343733673, -11638305736993595875,
        56166809904209721947, 58430467420909046421, 34566992554078535787, 40964022496684447164, 21447413801140508309,
        -12014838742988073418, -21402169987726360312, -6386663794944086605, -10880241165818911090, -11454661435230094557,
    );
    lemma_next(
        250,
        17861459102169696214, 15180900947052580586, 17545028102172830287, 2933811736744452754, 16212533279741559669,
        14106145704669628027, 17355421408125245816, 12417623333194564293, 6593247091073882919, 12663816467903300803,
        6769669338850478233, 4815023119900897543, 2439913828425263597, 17909858918467895675, 796438846997353044,
        13445121237346128886, 1632247062339008675, 18193009691156626898, 10151980160386244189, 574915937757084005,
        10033182040620143350, 15059972423394863024, 12884796043578151245, 225838473750261323, 4653993398978387423,
        -230019331280637009115, -298177950496391030879, -88436975567576864326, -185332935118386330399, -107797016097834146477,
        17945103218480688337, 56331936802885979594, 7687205454821218099, 14522187333375187243, 10257051520685660220,
        10869383391440392195, -8778209030901084856, 48495388297357756208, 5287225414014622145, 17113949921429690551,
    );
    lemma_next(
        251,
        13445121237346128886, 1632247062339008675, 18193009691156626898, 10151980160386244189, 574915937757084005,
        10033182040620143350, 15059972423394863024, 12884796043578151245, 225838473750261323, 4653993398978387423,
        10097061597553631221, 16869402450336008816, 4842392585135673385, 7530722081064889665, 15107269274975779787,
        9615911147342922756, 17229041161076215085, 7269048510162393783, 3016294398020371321, 9526553094653998126,
        13944443025763263914, 10410174651297822923, 5540856351571377897, 8529860005285020487, 16723015179313247275,
        -68098834566455564017, 38406190077656857806, -26262813929386785239, 8564358443439703583, -20729767373383139270,
        100280816738781198815, 51484971290086797442, 57732491182679664737, 54217786033777495298, 31583047051067853063,
        -41784074123550047747, 23493410970492233383, -710198235154190004, -10628613110581204063, 1262088196965466504,
    );
}

proof fn lemma_doublings_22()
    ensures
        doubled(
            264,
            z(13300520263150979359, 1960787125023660244, 904626140237338136, 17129213705607579333, 4441819817703032620),
            z(10949544951037530521, 1074477275400652158, 16685810037784728774, 13722924890811952081, 11602680190410984325),
        ),
{
    lemma_doublings_21();
    lemma_next(
        252,
        9615911147342922756, 17229041161076215085, 7269048510162393783, 3016294398020371321, 9526553094653998126,
        13944443025763263914, 10410174651297822923, 5540856351571377897, 8529860005285020487, 16723015179313247275,
        17834029972409368835, 8771002427705730104, 13126001394092171437, 3129504724826336708, 17385665741847350388,
        18434476308886411682, 13336410113073414264, 11915410220231599689, 13630859043942360881, 6489776570397064579,
        9687651553588877467, 999995093789935562, 13468239657553675337, 12868346883000098996, 517920721383806806,
        -20994290855861693467, 18903877312433192768, 6666220559206705755, 41427163360352762482, 22856492792444279683,
        80201591042251550039, 92777981305741420294, 47247396254189427575, 67690203619297156565, 45932369655482984322,
        -18211272860114098747, -12486725222331005041, -37382563176581744754, -2611172449914197830, -13068169486527374958,
    );
    lemma_next(
        253,
        18434476308886411682, 13336410113073414264, 11915410220231599689, 13630859043942360881, 6489776570397064579,
        9687651553588877467, 999995093789935562, 13468239657553675337, 12868346883000098996, 517920721383806806,
        1494654949598569878, 6249643449966281354, 1655433812246801739, 10084038564103713976, 5538122891826822430,
        2890878530811681848, 9047811672374848223, 8771518428676771492, 12510457125105553480, 9911666718417968334,
        1934380792569493173, 17560431065973835029, 7436202074866306843, 15617805670059938407, 14657468455101707024,
        -242676754362444841809, -172597787649787498210, -157211370096291484588, -131050834131414484325, -102999717261211005781,
        16808522057106322656, 20532273676169580901, 20550321259469585010, 7743831292073920606, 7878838523809308077,
        7101606780399362525, 9361331522345418346, -1500102353478875644, 6955807612003399426, 7395387417159741693,
    );
    lemma_next(
        254,
        2890878530811681848, 9047811672374848223, 8771518428676771492, 12510457125105553480, 9911666718417968334,
        1934380792569493173, 17560431065973835029, 7436202074866306843, 15617805670059938407, 14657468455101707024,
        12242436019770145273, 8705427951220515289, 15672377548432364147, 6217693828692424155, 4632814368803643476,
        5408640444739491082, 17257965201346437841, 11171314550102577634, 6822643004119185588, 187979430843635994,
        6014783481945998692, 8920845029298597054, 5331146801946003594, 15517537732578574391, 17602472269421734206,
        -30760099713518274045, -27060337422222645437, -59649234565915653949, -4529850968744731484, 991657097746652374,
        52938193168422139445, 41458467228551958534, 34279933636278721445, 26535731726227402856, 25333069866534919073,
        17980181412076903551, 22090144995384572201, 6511551634506419513, 2144457801706011804, 3698941120003503730,
    );
    lemma_next(
        255,
        5408640444739491082, 17257965201346437841, 11171314550102577634, 6822643004119185588, 187979430843635994,
        6014783481945998692, 8920845029298597054, 5331146801946003594, 15517537732578574391, 17602472269421734206,
        411751467774716947, 14270508164744314815, 14589776229048018657, 6901591003245838796, 13897810125509552435,
        13500615888293920739, 16505353729406388254, 13040313531675159134, 3391462670500302566, 17303115605214577348,
        12073317274368083763, 13240693996404168051, 4447430982224525795, 17295746785627619833, 18165316208891656699,
        125609148176182340555, 97049347291530157585, 63873109492989647883, 32395369823822153870, -9958480993220721626,
        97269112635749057928, 74335249308151246652, 42889093696901189021, 54293478411874059827, 22837899077884336323,
        -32157151307627584127, -47226106632691059889, -17314538319678794775, -42485252636801946013, -5020793573728439736,
    );
    lemma_next(
        256,
        13500615888293920739, 16505353729406388254, 13040313531675159134, 3391462670500302566, 17303115605214577348,
        12073317274368083763, 13240693996404168051, 4447430982224525795, 17295746785627619833, 18165316208891656699,
        3851554849667265929, 13946496155100747991, 7278861944626006850, 10852783713477558125, 14881655859528153083,
        684960263205526027, 9701060915119927981, 18122309366054331745, 5079774555649988998, 8039072044858102713,
        13741722807927015994, 4875725298836374418, 6864260976238272427, 11462907992511284469, 17893834367741368190,
        -143292273857013081714, -148890909770688054095, 20418664533474733088, -104443122595427274040, -49536474776787905068,
        94005299351746864874, 60211668773238908084, 66115677461117439058, 51554922837448312447, 25496828583790851455,
        29187378653852990638, 6796944237903717931, 21405034853473545179, 28450945484031782754, 12994568828371980585,
    );
    lemma_next(
        257,
        684960263205526027, 9701060915119927981, 18122309366054331745, 5079774555649988998, 8039072044858102713,
        13741722807927015994, 4875725298836374418, 6864260976238272427, 11462907992511284469, 17893834367741368190,
        1748568636577408265, 2808656184537372606, 4172006128172052171, 16183612275803303151, 4496815631350872824,
        3883019731034930363, 13129119304304429098, 1666139741268275165, 8939401086922059390, 7045925665732926100,
        15537122035412166534, 4895055563266144558, 525841422325082413, 16037739547406707656, 1670081814187379386,
        -88231743134027742812, -57139121297037930621, 60768738259591415245, -33092468332363606989, -45987686486048067219,
        26234782799702992638, 49228992711198289707, 24889321925389320155, 7627136109726694744, 6724223073450151207,
        38336510822753768166, 1738343514748414536, 105936420573789527, -714985031803771492, -558797281062714754,
    );
    lemma_next(
        258,
        3883019731034930363, 13129119304304429098, 1666139741268275165, 8939401086922059390, 7045925665732926100,
        15537122035412166534, 4895055563266144558, 525841422325082413, 16037739547406707656, 1670081814187379386,
        18277861900940671988, 1546812462739843663, 6719764421872556377, 15949121209144719140, 2372095307097404475,
        3829689175033237460, 6869755977917429841, 6399521095539823884, 7020553163317503803, 4644752291154873435,
        9125949656837509516, 5808263091514965344, 15673688718334744165, 11780577613564654050, 3191735962616583043,
        -34064229045891608622, 32533877353306934867, -57378134299112196510, 20964951382760502286, -28682354710216208141,
        54163562685161635228, 49618934249234531381, 25751725760506201867, 33648247442218539554, 9823386338189351454,
        -7108924912228928779, 11981732250370676423, 2822678360522062407, 4756950197975549447, 6234544953676818734,
    );
    lemma_next(
        259,
        3829689175033237460, 6869755977917429841, 6399521095539823884, 7020553163317503803, 4644752291154873435,
        9125949656837509516, 5808263091514965344, 15673688718334744165, 11780577613564654050, 3191735962616583043,
        8406987096109956365, 1238723864880730704, 17015197307798094757, 13520204463647244844, 15381104123386391797,
        3708364083809390999, 18166981472056219519, 10006060263880267220, 14478455783893042135, 16330979765844237378,
        160247928607024837, 8369815531138798459, 15287903883668685812, 2366190289086535248, 12345445007811784933,
        95425842696647797375, 92794738018786261560, 57408871917314292105, 19332890545437828381, 29005619415374869470,
        84854473513782617842, 115982027944241311781, 83232117017167884926, 53083499144648048822, 31530226953194648003,
        -59125661610648488606, -62898390275077833842, -46641444274401354640, -43204991612638310657, -17332321876222315346,
    );
    lemma_next(
        260,
        3708364083809390999, 18166981472056219519, 10006060263880267220, 14478455783893042135, 16330979765844237378,
        160247928607024837, 8369815531138798459, 15287903883668685812, 2366190289086535248, 12345445007811784933,
        18310391640901471134, 2713061421730206108, 4723120977034639592, 7877804437908661234, 13646503839633484618,
        14867752533682296779, 10479530190966228742, 6078897898310350554, 8827191229440815359, 341052461371658422,
        16571773081623489772, 309853090578574542, 12753392327911404099, 1235099730735029845, 8775014108662850300,
        -341928649539994879662, -174088922435438164826, -221434806608251593539, -138295896753939744354, -81115265051854517598,
        42319674307855421691, 36443199482816734008, 44742422833256668838, 47314626447575920887, 30617840412418557774,
        22411530201362529361, 34227503677029877169, 35199373694225437705, 38876703275623148267, 12735912725591244049,
    );
    lemma_next(
        261,
        14867752533682296779, 10479530190966228742, 6078897898310350554, 8827191229440815359, 341052461371658422,
        16571773081623489772, 309853090578574542, 12753392327911404099, 1235099730735029845, 8775014108662850300,
        16947358183014367472, 6182847785108518185, 8885511046171913609, 8033997808221511976, 13138212686536290371,
        5731799490330682705, 8281205691338560669, 16895538256983944551, 17119309557317572935, 1000912768205674522,
        16293330852949759794, 6328416018743626591, 17426180998591411260, 6732070352960229619, 8179099218133220405,
        -5480443138418881148, 4048957290296955538, 17619673108818070810, -413962940023599520, 15366070652828749476,
        65210392562041523435, 59828424676148063769, 52730916161476663078, 48790371676484113464, 33806197336503723579,
        -13688309183321355017, -29817627029605307956, -23379668023914744060, -7615643799616938400, -1131459477587665816,
    );
    lemma_next(
        262,
        5731799490330682705, 8281205691338560669, 16895538256983944551, 17119309557317572935, 1000912768205674522,
        16293330852949759794, 6328416018743626591, 17426180998591411260, 6732070352960229619, 8179099218133220405,
        11377020125944960593, 10651515463358380247, 3927823187407203573, 5011100587598645023, 17772870372283187450,
        3397709862996423811, 13262239203640472819, 7582489277020194948, 5818247563003699543, 12303698633341618499,
        3474046381626350296, 170326908781913226, 6320528115342888221, 2959470046556452484, 14609682799618000975,
        -173644434375586729932, -26145028908338912780, 28618446558830861155, 9343753528108885884, -34283167946514685371,
        74993229473275178562, 39928485496008301232, 39963609447599663597, 62088034767145308587, 28546177669461263688,
        -17728364555401964950, 27184057534450878566, 26818056276419901857, -20748735315501385564, 2433190177167726612,
    );
    lemma_next(
        263,
        3397709862996423811, 13262239203640472819, 7582489277020194948, 5818247563003699543, 12303698633341618499,
        3474046381626350296, 170326908781913226, 6320528115342888221, 2959470046556452484, 14609682799618000975,
        14019518418874558142, 11268545077505049905, 16178052880141154006, 9785951059603134913, 17134280571493519057,
        13300520263150979359, 1960787125023660244, 904626140237338136, 17129213705607579333, 4441819817703032620,
        10949544951037530521, 1074477275400652158, 16685810037784728774, 13722924890811952081, 11602680190410984325,
        -108680135062499766464, 3819546127930096604, -27931863027200184363, -15369421499735109195, -4502454161853027416,
        124950135824249566441, 122864470788071955657, 86012388394800002383, 82385573569737009880, 52188341573192520016,
        19241847019812755025, 23831619318279680390, -15712515990791296153, 22048632855573278550, 1719239501012197499,
    );
}

proof fn lemma_doublings_23()
    ensures
        doubled(
            276,
            z(781829225417461748, 6296146141768998226, 15055712433978616153, 2045240042868075657, 14899012053112389805),
            z(10063055514649071438, 4002573965090507032, 9809632660476764127, 14132563282989894148, 16723175399414954594),
        ),
{
    lemma_doublings_22();
    lemma_next(
        264,
        13300520263150979359, 1960787125023660244, 904626140237338136, 17129213705607579333, 4441819817703032620,
        10949544951037530521, 1074477275400652158, 16685810037784728774, 13722924890811952081, 11602680190410984325,
        10316923561300022449, 8508547924188681757, 10740559661810243622, 18245823149276459116, 2334368725699814815,
        12667617851321977071, 3479293424288456815, 16911917739052279302, 5739609200317834722, 12344030854557547839,
        13613689763473899440, 13502546394271683686, 11094039906462619503, 1609070499294401316, 17472759910204785600,
        139750422485929682758, -9609113383098487666, 32902306016278148526, -21842174753881649778, 19691580547435166426,
        75971865182824166774, 71813693447926776911, 29792212944955644951, 31203473555821440203, 25696542915261317219,
        -38761319124052337535, 13359193623026462657, -28408969350740204359, -4271481909545065249, -9908184935283087257,
    );
    lemma_next(
        265,
        12667617851321977071, 3479293424288456815, 16911917739052279302, 5739609200317834722, 12344030854557547839,
        13613689763473899440, 13502546394271683686, 11094039906462619503, 1609070499294401316, 17472759910204785600,
        3022966281199688524, 11877893716280877869, 15691901363351685474, 8269808329364363919, 2793678553887472923,
        2076190875366900740, 7957400788096981230, 11820041751937810193, 10464206076516063711, 11112768718616621541,
        14956994089174777638, 484866803435661380, 8007622824894523332, 8828625449349696761, 4811229527744793919,
        -40432812095233860650, -108567274575956787887, -48137532898449810511, -51260318963664135291, -60967174982815837326,
        53497274242880474012, 29274049752318748307, 20305786874443827578, 24187796750048724036, 24913988484146464623,
        -3129357541496960968, 5187358289477820377, 6470063429638694385, 4002699246705822969, 1087507522304304866,
    );
    lemma_next(
        266,
        2076190875366900740, 7957400788096981230, 11820041751937810193, 10464206076516063711, 11112768718616621541,
        14956994089174777638, 484866803435661380, 8007622824894523332, 8828625449349696761, 4811229527744793919,
        6805762917916177313, 17860794537914555334, 3875525795170692820, 15262609384940457042, 817416731660561036,
        3928588153310357182, 7010696296394968290, 11983162227299958447, 13826318768366130948, 14702692232013001973,
        14051825635929116310, 17109171422454933520, 9475312723087743350, 15329496066089612199, 3496507072981461439,
        -117682832571115214265, -105626217612793050198, -92385842103744495942, -49656522008061401931, -31170799589222590109,
        26499012458210985371, 52093850067566922426, 24211062560075490315, 18875518134937927170, 30972980796742888897,
        -13509206503608411622, -12073925563646519082, -8890448097989267052, -3209348597959708157, -3912850383531748964,
    );
    lemma_next(
        267,
        3928588153310357182, 7010696296394968290, 11983162227299958447, 13826318768366130948, 14702692232013001973,
        14051825635929116310, 17109171422454933520, 9475312723087743350, 15329496066089612199, 3496507072981461439,
        12952764922615366649, 17974484838537008001, 13200884071047603431, 13421418102953774473, 5618203252138185929,
        6361173366271424458, 15175466145196666808, 16543452046105627871, 97911139857257303, 13838960998983624575,
        14286045656493586105, 790718381986566815, 11215310917843244474, 14188773542763778365, 71368887559109895,
        -86135053108835063751, -123485342737795766821, -111629349623291058268, -59142012362359171589, 8133033176441634917,
        99569196274321259611, 78660680636886820771, 60578903588493413256, 49707403556347843940, 43492337816879306268,
        12875840894175396758, 19549652040518874428, 1530149592894455143, -1627446768300476003, 4038618244777943531,
    );
    lemma_next(
        268,
        6361173366271424458, 15175466145196666808, 16543452046105627871, 97911139857257303, 13838960998983624575,
        14286045656493586105, 790718381986566815, 11215310917843244474, 14188773542763778365, 71368887559109895,
        3494670736960205904, 9984472209616310551, 11733329795697272249, 15607455520321724260, 9734092230715430268,
        17347160381218102967, 17252197728334064389, 7707029631635238986, 15731954635850323050, 13237611101467383906,
        11263163983756731924, 11024065919341703785, 1516818436020314722, 11965051601789707449, 7585359075672903532,
        -93855416030954812785, -131227869632659461906, -4439438601498525058, -132377106038929715299, -27557143279435590045,
        91838207041580948261, 80547698282334668995, 59264897853442716745, 34024741657376921814, 28046702035752374729,
        -11796183031728300421, -30886671711114939460, -29661057112314320476, -7843027142368328600, -10281847054621991755,
    );
    lemma_next(
        269,
        17347160381218102967, 17252197728334064389, 7707029631635238986, 15731954635850323050, 13237611101467383906,
        11263163983756731924, 11024065919341703785, 1516818436020314722, 11965051601789707449, 7585359075672903532,
        15354446217825725610, 653586803523689421, 6474284178594333745, 11392633593164309137, 6653995734232525217,
        582364282271792781, 7433622457343109155, 12311606059505970305, 10381244536211184325, 18035547228269228527,
        2708665192418285305, 15991954335414221287, 3279768057754402372, 9216658013983790371, 5204955744069731645,
        -315057723832365617982, -234901118448079997279, -229884506736688232703, -159414733167836228074, -136347859358602018196,
        38186017183818241277, 36208361797460004704, 35457990942481171278, 26625031974176223032, 14156717513946645180,
        21172090111211731148, 8645751907183207945, -700175275135380336, 12898470611280384432, 6691071156594573243,
    );
    lemma_next(
        270,
        582364282271792781, 7433622457343109155, 12311606059505970305, 10381244536211184325, 18035547228269228527,
        2708665192418285305, 15991954335414221287, 3279768057754402372, 9216658013983790371, 5204955744069731645,
        6905406448663515847, 5591183428062611774, 7014862142579623486, 4994700185041823048, 12913426311968491166,
        1158454271820388422, 18046543021264245604, 4397677090649189938, 12850455149551330398, 16284103051675246268,
        6448659803972970465, 3005682496443942130, 2184600939357848892, 17249544753516477803, 16851431625069890849,
        -150571176377518185268, -216417387927742401950, -132638040249945364075, -146055749091775576527, -28736708312287976553,
        37465443562290610057, 37707213131946997010, 27925493815005675220, 35111527896955452060, 15363457869663048942,
        -17299969525141699447, 12465060402471360782, -4236258347944759525, 960776060037545293, -360166907288819739,
    );
    lemma_next(
        271,
        1158454271820388422, 18046543021264245604, 4397677090649189938, 12850455149551330398, 16284103051675246268,
        6448659803972970465, 3005682496443942130, 2184600939357848892, 17249544753516477803, 16851431625069890849,
        15642684194804653480, 16965814703680646198, 7127502785907599799, 6701298057846850713, 8083393214830726674,
        13846723106123066133, 3192269038298628705, 8675777394083836144, 691691733029214356, 2409294224852154800,
        2750910544631494263, 8614863012173236047, 14073138796760537222, 10429451096123358965, 8849990188567245538,
        -185534452578081285249, -57877166773588633491, -162512109546257540552, -75443372652145092446, -14878225326571749096,
        73407144151873830817, 54816741217825728830, 45311019618292099276, 35102351760276127360, 28789860735090228693,
        56482104252376354962, 24636646174956813027, 36236644223516241495, 25745836337727002898, 21131591449610063588,
    );
    lemma_next(
        272,
        13846723106123066133, 3192269038298628705, 8675777394083836144, 691691733029214356, 2409294224852154800,
        2750910544631494263, 8614863012173236047, 14073138796760537222, 10429451096123358965, 8849990188567245538,
        12260637648141429685, 15714061145157493425, 2678310034836648487, 7087089565613038986, 2879748708116324319,
        14545503396628550690, 11314713079331618347, 13190790842698308623, 2243235967810674419, 5851980138350487813,
        8451916313270919337, 9965546924909694565, 16682812002442652576, 14206472008825845720, 14523316676627964786,
        53944270417717145352, 26064496330174114507, 21995752740927986323, 35789944027140512728, 17288000722672719768,
        29041822005198931691, 31565814101475009119, 23584732126977174748, 15332656342789706682, 16291350490806755766,
        -18946242125458854159, -11396204697163292417, -14716153603278390127, -7937502213562062672, -7495089152450718732,
    );
    lemma_next(
        273,
        14545503396628550690, 11314713079331618347, 13190790842698308623, 2243235967810674419, 5851980138350487813,
        8451916313270919337, 9965546924909694565, 16682812002442652576, 14206472008825845720, 14523316676627964786,
        14025685283661410643, 15351457142671679276, 3655381363211384522, 15529851734926153167, 7879893833206898298,
        5599748235200937496, 1595336005368036774, 15887922829917177388, 11767028258127468334, 6182162986742997199,
        5600862805896534131, 16804850011185701599, 14031280457133989275, 4983559627532204208, 1613692557776846318,
        84181165343557401567, 29699324865732623420, 59041240246943091923, 28908070499235624471, 12103499101317390737,
        68474530864122513505, 71935860071693934151, 58137478736193057830, 39797953733850989826, 38555060929029356751,
        5959290312747299613, -12871546254701578542, -5228286640257087806, -451773803009827433, 3292608696555304811,
    );
    lemma_next(
        274,
        5599748235200937496, 1595336005368036774, 15887922829917177388, 11767028258127468334, 6182162986742997199,
        5600862805896534131, 16804850011185701599, 14031280457133989275, 4983559627532204208, 1613692557776846318,
        5507193055215721923, 822598924389573551, 6794038702990803967, 17137837657433116058, 11612271504058781302,
        16182744070437729762, 7929929084607768536, 4125165637087423620, 14300766715971259463, 114824692509838713,
        2636677191803887832, 2621144831618028601, 190164872280598160, 6833933755848714174, 11259402834609339702,
        -40674331952309887413, -71427952640416485351, -58515245817485789002, -15215705346845748889, -8398112669935714250,
        42622883402271984343, 73917770416456931998, 68823211996686474023, 32768647144062266823, 10964327186860286266,
        15674041423432785548, 19493001021508038636, 11456952001678829835, -938818889758080007, -6516459919493554833,
    );
    lemma_next(
        275,
        16182744070437729762, 7929929084607768536, 4125165637087423620, 14300766715971259463, 114824692509838713,
        2636677191803887832, 2621144831618028601, 190164872280598160, 6833933755848714174, 11259402834609339702,
        6117900148474989780, 14445663630473196856, 14207701210845473363, 7990904075256312879, 6071362568684812750,
        781829225417461748, 6296146141768998226, 15055712433978616153, 2045240042868075657, 14899012053112389805,
        10063055514649071438, 4002573965090507032, 9809632660476764127, 14132563282989894148, 16723175399414954594,
        -9138793704434396451, -65943778285491983080, 17510635776682704982, -52532531010385341535, -17786582159251423758,
        67483569525992250790, 48023571408439432285, 36516679867156944963, 33547317605633218653, 27485315373739840266,
        -13898893829791745333, -16423923724241801065, 2404047560420534191, -11163046728079510374, 2052016956009543671,
    );
}

proof fn lemma_doublings_24()
    ensures
        doubled(
            288,
            z(9640529307940908299, 4142104545458572968, 1025583053036315439, 17313377496605284367, 4097547626826980770),
            z(3293575316290410590, 9549526265103661159, 17555469285135407619, 9127915081508366756, 9935820606267583096),
        ),
{
    lemma_doublings_23();
    lemma_next(
        276,
        781829225417461748, 6296146141768998226, 15055712433978616153, 2045240042868075657, 14899012053112389805,
        10063055514649071438, 4002573965090507032, 9809632660476764127, 14132563282989894148, 16723175399414954594,
        4524223106569510759, 6999334129958138121, 17465606207747008579, 9951497485649905531, 14493931799327708112,
        11341959109206944163, 17509376403359998855, 9543686534681899681, 7801569991149933827, 6243605050815639435,
        17849032388218781227, 933444146297184619, 14613458880104981165, 449350090722148652, 10685293312754881981,
        52234240447508331297, -25932259295911874322, 107650558016933550012, -28003336828235664011, 12794168953662081591,
        90639813460775890668, 101877156706117992702, 58137372520973159048, 52299906714159888027, 31198062505373105834,
        -26598523265151266318, 21504674739166504795, -12461784991427246988, 4768064001856509726, -9188984516389980986,
    );
    lemma_next(
        277,
        11341959109206944163, 17509376403359998855, 9543686534681899681, 7801569991149933827, 6243605050815639435,
        17849032388218781227, 933444146297184619, 14613458880104981165, 449350090722148652, 10685293312754881981,
        9520248368055777045, 2755164755812086173, 7224043477311836674, 12106416040689760842, 16725881475324981558,
        2217709221758062418, 8465431570680040146, 4297152600084343573, 1316334301702499786, 9409365585310868436,
        4577580937612426920, 7501714183548636884, 11715769436142482239, 8167281174350270252, 17118886762176096842,
        -108570236825665259694, -39759806427537304624, -58733629076017174575, -15032969249236058363, -26074470243754644633,
        48348593959552676173, 65980565397121627798, 73730257366302604270, 60150689155743286516, 23709671243056324282,
        45840145875402124235, 29350883487307213463, 19039438550501533431, 5049212422630355667, 15597936165358197105,
    );
    lemma_next(
        278,
        2217709221758062418, 8465431570680040146, 4297152600084343573, 1316334301702499786, 9409365585310868436,
        4577580937612426920, 7501714183548636884, 11715769436142482239, 8167281174350270252, 17118886762176096842,
        8581759010280479949, 6941264921200141946, 13026810427327189173, 7601975322433437624, 4856119392941723499,
        9940011759975054263, 4254830153553950977, 13336036261278436599, 6746102948779939070, 3235987698601792268,
        17607647460451500666, 7957590674961971357, 8456556666046226344, 14788963811108432044, 12049564647229384562,
        34287520887557813577, 75253094923769261863, 51400168606115011526, 1845943192776827836, 33799748066415359975,
        47166546031113130578, 36432721671971980649, 26739876213255218261, 20711915890680326349, 19438689589112060419,
        -15976480546806237342, -1719680566310885248, -4729984202864742820, -1260727565942007355, -5852001844243527973,
    );
    lemma_next(
        279,
        9940011759975054263, 4254830153553950977, 13336036261278436599, 6746102948779939070, 3235987698601792268,
        17607647460451500666, 7957590674961971357, 8456556666046226344, 14788963811108432044, 12049564647229384562,
        2199007754137385801, 7219031104087467868, 14562024809827730751, 10631483627043309880, 15097344088487809713,
        12391347602352896028, 11182464283729816146, 7727731172886499984, 4489472344618431095, 441952384278487741,
        14205717931552677929, 2571767452139718055, 9598610031172038730, 2025541519730518952, 18132796688602565387,
        53566411616097650844, 87347300871038024289, 82971000387372618275, 56798478878441321508, 17070843687166826585,
        86067241924404318111, 91610862697613609534, 58503626217063850704, 51000558255017592808, 23415999069754584030,
        1019729664920503292, 22503471141280202215, 6393924832666898259, 2442420058470445573, -355435073615452582,
    );
    lemma_next(
        280,
        12391347602352896028, 11182464283729816146, 7727731172886499984, 4489472344618431095, 441952384278487741,
        14205717931552677929, 2571767452139718055, 9598610031172038730, 2025541519730518952, 18132796688602565387,
        3311732783394430891, 14587689210892090777, 9507196998025123118, 17995968753419956029, 17253076580820915922,
        2675586046761374341, 9051107328062626205, 10778760224024119432, 6695022484633522602, 15651567992626382517,
        6704670230195794059, 10263611758844509082, 492997896315286886, 8820342583964484433, 3435418165525485226,
        104370436475336404309, 86948578283640354832, 86243237372841075486, 101736015308801793517, 23376766787738422072,
        138106215365315976780, 111258448148999814696, 115938412909711735673, 69908147431627355310, 39557178714860595595,
        -40698266465875932375, -30466373173525334928, -44557231129832961235, -34908158892358154513, 5119158922051878551,
    );
    lemma_next(
        281,
        2675586046761374341, 9051107328062626205, 10778760224024119432, 6695022484633522602, 15651567992626382517,
        6704670230195794059, 10263611758844509082, 492997896315286886, 8820342583964484433, 3435418165525485226,
        13944029791197982533, 14366819886168023346, 12174832346837848758, 9452163336759436777, 17530149948658819078,
        16717277831447306113, 1942979706587126813, 5972089783975433517, 10032166091946596923, 9297344447898272862,
        16839946341273404156, 13684138125005804428, 3796465547300191721, 15950166178019509436, 853143796647223905,
        -88658059417106065062, -124871656835848927259, -38516331387005692359, -102968314992247563957, -9380813996751690074,
        129888614640116830458, 105669201932517449064, 83490343961844450919, 83231393418297834383, 49260913573606465500,
        25278424469617586878, 15591997474328023083, 155685723331677035, 16832819378600268390, -4325209419086325664,
    );
    lemma_next(
        282,
        16717277831447306113, 1942979706587126813, 5972089783975433517, 10032166091946596923, 9297344447898272862,
        16839946341273404156, 13684138125005804428, 3796465547300191721, 15950166178019509436, 853143796647223905,
        10656136538833279814, 6135097436165352280, 1569774325315483934, 15556393494206541003, 138435119811332568,
        1145119575162298330, 1770986938407084232, 144823151455763267, 1338361854617000977, 14994538809208240463,
        2101251763396341027, 17923795282965333291, 5864845911918696870, 10548004075798781597, 15962199423401478871,
        -72410866038844378618, -5524489174526746230, -102711105531884413407, -48774162126792876308, -27120323009492711385,
        14374855814038136452, 46515573464312963561, 4554526615089458875, 19020214876743502813, 10641148240323562793,
        20277163025224951705, 25949965511826505327, -9469242498606706634, 19978796694611337710, 358115740106177037,
    );
    lemma_next(
        283,
        1145119575162298330, 1770986938407084232, 144823151455763267, 1338361854617000977, 14994538809208240463,
        2101251763396341027, 17923795282965333291, 5864845911918696870, 10548004075798781597, 15962199423401478871,
        13313092246683255074, 1325131941809573239, 17262449621650623014, 14289035573589529819, 3357817654021209368,
        13433770603198691218, 10804996481221794801, 6502323413897547803, 12759526732040871602, 7627808712954595043,
        14981929283312941240, 2952650027808711812, 5436003766786592958, 10805322182122744367, 14000620242044447909,
        89656938470129201937, 167574156966755449714, 80534139441817235154, -39974954884098302647, 57705680724488118413,
        91285392575905590586, 53971463214948419462, 40617953809347385848, 24938675391797562220, 23053811155141546013,
        -59052016709281536577, -16733876573326192770, -5854779731784248975, -22649484584916587956, -10687899903501363294,
    );
    lemma_next(
        284,
        13433770603198691218, 10804996481221794801, 6502323413897547803, 12759526732040871602, 7627808712954595043,
        14981929283312941240, 2952650027808711812, 5436003766786592958, 10805322182122744367, 14000620242044447909,
        9463697287710086710, 14905735380916186272, 9165560313393127910, 12394192687030919289, 4153554013948391915,
        8109902258044302106, 8958490537952013960, 11763123690453453474, 9106748351419068302, 12778641534763382239,
        16948175359888844577, 14149796620402123008, 8891529169785611240, 8084887727791028511, 7490079308083862389,
        -49362018434042414773, -55156672146649299871, -46092105390724175231, -45138531239859331053, -37104005327521194079,
        61942126363332943018, 52659302227239170421, 38193234202216668834, 30335144211054848709, 28845879927340169571,
        -13666884653746303045, 1380558120771489199, -6476593486252547808, -1361800390934284292, 134558613380970941,
    );
    lemma_next(
        285,
        8109902258044302106, 8958490537952013960, 11763123690453453474, 9106748351419068302, 12778641534763382239,
        16948175359888844577, 14149796620402123008, 8891529169785611240, 8084887727791028511, 7490079308083862389,
        4320441090009610701, 13341802475180735298, 17856655675417547107, 9225018060964903894, 338937750827075130,
        4205655788735336933, 10963916293580482753, 14389804040550069776, 13164167409319249689, 1744962084889771120,
        11013345511225947152, 18028719997059845208, 18122779889790481585, 5214884957693106944, 2440713508443134968,
        -111291249732477338223, -110883460499389842317, -76823965049584740846, -76147311419339698611, -35554076468633624654,
        56062266443506542164, 22058179192646113571, 19031065375206346534, 30169924527244124927, 30788393254834171735,
        9020947652913980989, 28164269426800386330, 18043531733286836738, -2230678312525113877, -3824167569872044430,
    );
    lemma_next(
        286,
        4205655788735336933, 10963916293580482753, 14389804040550069776, 13164167409319249689, 1744962084889771120,
        11013345511225947152, 18028719997059845208, 18122779889790481585, 5214884957693106944, 2440713508443134968,
        16077756677529153658, 2159740128633708958, 3065507367120518088, 82096300482784344, 1738226140186689049,
        13472246459867197183, 1339418424323688806, 18094584146906715663, 11049722227464350414, 12523246062660458995,
        1478962358730659985, 4023598939522975139, 8025542274132880499, 7430516384210826430, 12022084033960767303,
        -169597837107905155658, -77223920802306084616, -19161981019153697647, -50005214523251491650, -69272389822329536678,
        15315925677070827119, 5499021497043906976, 5642928189824364933, 1352300302252556563, 3558649829198181857,
        -8136889077965232922, 911039248181531890, -3188278681365596399, -79574784297793179, -10592563084687492829,
    );
    lemma_next(
        287,
        13472246459867197183, 1339418424323688806, 18094584146906715663, 11049722227464350414, 12523246062660458995,
        1478962358730659985, 4023598939522975139, 8025542274132880499, 7430516384210826430, 12022084033960767303,
        18298494747986665397, 14715261921673290286, 7507512154674925811, 6056842696004357466, 17376189451664136053,
        9640529307940908299, 4142104545458572968, 1025583053036315439, 17313377496605284367, 4097547626826980770,
        3293575316290410590, 9549526265103661159, 17555469285135407619, 9127915081508366756, 9935820606267583096,
        -123811995011751635658, -186858073983710420919, -125384065948266415110, -33081253033808361185, -65271292245022594883,
        116109211296518757288, 77591038938159733470, 60864960756882711393, 73097349781791233368, 47191797734036073195,
        25210577924716773608, 52629154885378883679, 6854620922169170425, 31330508050244576794, 12997264838553943752,
    );
}

proof fn lemma_doublings_25()
    ensures
        doubled(
            300,
            z(16417560121463376670, 4489110490789007848, 8050162030195108516, 15207716401591614736, 16373946200851068870),
            z(8610529644818605287, 16901086773136562223, 5970358078783726225, 15471485913263428960, 7117610811896223876),
        ),
{
    lemma_doublings_24();
    lemma_next(
        288,
        9640529307940908299, 4142104545458572968, 1025583053036315439, 17313377496605284367, 4097547626826980770,
        3293575316290410590, 9549526265103661159, 17555469285135407619, 9127915081508366756, 9935820606267583096,
        4969453651913618942, 16104184339953029629, 9463879578193118546, 15478543024354596112, 15722048957753674849,
        12722909483214051061, 12519289704500832334, 58375769757912034, 10648635252462741488, 10601427295426868002,
        13034780607062396092, 5905688900285692246, 4034487504326412181, 12858368460147771589, 10167529381799311667,
        170132301581901270518, 13874374967938305414, 50981847948492400096, 37842757543370972248, 24598791558695239577,
        131338219447104446183, 96036641453603371482, 98311758196176037601, 65063210758913028617, 40352032935626447866,
        -26591169032042793790, 4292133362115499428, -7965310777472002295, -20874044540702857946, -5093848009837147496,
    );
    lemma_next(
        289,
        12722909483214051061, 12519289704500832334, 58375769757912034, 10648635252462741488, 10601427295426868002,
        13034780607062396092, 5905688900285692246, 4034487504326412181, 12858368460147771589, 10167529381799311667,
        6112648818998410271, 8607838535322823777, 10569484077391851351, 4378773640497544280, 16072810491502868012,
        1225522160113940570, 3375989495842232424, 10015153708898956771, 18040182446393804687, 15878323362881032176,
        17091156558194843428, 8902516536170477585, 444433707034957705, 5141435125899577848, 6155065257183230290,
        -38509296153534530678, -17297360602948483313, -31062590389481952102, -20741638110076558592, -38353346055301290462,
        62079556480201812213, 64078638857001211634, 33913039833790908652, 54779225168898282623, 20794587777484952245,
        526766465963282480, -31965680154927670868, -15523855797343387606, -12920843758241545509, 1285468387648214951,
    );
    lemma_next(
        290,
        1225522160113940570, 3375989495842232424, 10015153708898956771, 18040182446393804687, 15878323362881032176,
        17091156558194843428, 8902516536170477585, 444433707034957705, 5141435125899577848, 6155065257183230290,
        14399148746348031564, 13970815762844927809, 276864355635085313, 1896175622237589172, 3984912335802813996,
        3594184424555166672, 14869337829609633403, 1880811228998282178, 18343806171383563884, 236834532586098387,
        17348157816058438421, 3688652249292443693, 17440937606735084586, 12509215181852688062, 5578398064555425179,
        -161923135855328886969, -271213696128783663132, -260204554731109366978, -120737629773517424592, -15826617376793503921,
        29518501458517942604, 22754250509595042821, 13470858379690417457, 5962095534778018440, 9097409532720274134,
        28736054187015235599, -4883144173113241769, 2236039303784177672, 15644379469916562680, 10408451676898353423,
    );
    lemma_next(
        291,
        3594184424555166672, 14869337829609633403, 1880811228998282178, 18343806171383563884, 236834532586098387,
        17348157816058438421, 3688652249292443693, 17440937606735084586, 12509215181852688062, 5578398064555425179,
        11641429238435807404, 14848668202441620301, 14667963836839264088, 9155043666063768653, 1153616008427354070,
        11103560026989454117, 9659429090137351066, 12615489136094486201, 2561122063391249822, 14414797083091207094,
        6816082562338136640, 7109831685001280675, 7017447674167400377, 2630862334490924575, 4859171841115183672,
        122634955599997980241, -78998200547518135437, 34450449527434608465, 38477170617464699549, -28823403229446854498,
        56596217486887049679, 37876120503444263363, 33901023442191774048, 35385514630237668510, 27857981386765768902,
        -16332994158759116661, -15092992561259104985, -26700222139152458651, -924843563685961791, -2662896453277532330,
    );
    lemma_next(
        292,
        11103560026989454117, 9659429090137351066, 12615489136094486201, 2561122063391249822, 14414797083091207094,
        6816082562338136640, 7109831685001280675, 7017447674167400377, 2630862334490924575, 4859171841115183672,
        9824386740722239599, 13997042843268621173, 16467163243987271613, 11488412741914477947, 11870850095161060471,
        16102217450138827262, 7905057583387713154, 14174549586984445371, 11816362060847624382, 9063041682361586430,
        2474296852971940681, 7813343951706794303, 6859058222020175261, 1775680781275234779, 1175004103797209944,
        -90296533851362615724, -134662147494231628385, -38010540551516570224, -96865258689606189290, -46663624178736090365,
        120809870775335702789, 99955361090085155373, 72519037328708142912, 60144361534157710181, 44778781417863682751,
        -14791818211192924834, -8828239710254453769, -11830146374172218073, 2672734410943721289, -7688345832958682681,
    );
    lemma_next(
        293,
        16102217450138827262, 7905057583387713154, 14174549586984445371, 11816362060847624382, 9063041682361586430,
        2474296852971940681, 7813343951706794303, 6859058222020175261, 1775680781275234779, 1175004103797209944,
        9286965225673405810, 5551373606609395163, 17135020801497254267, 11152351320823525803, 5604671779076405084,
        14394004987731497323, 13903509802638315002, 9035392916605015009, 4292182473134034578, 16461468904779742272,
        6430349272483141591, 2364932639434471306, 16187792440800863334, 15078132619677986058, 13158808572895901145,
        -221877364703538178267, -200027712618785900247, -165194390867262033380, -112842091410765629318, -84579097419172203577,
        76951472351828119691, 57053572618978767345, 39254301092578713670, 26651090168421247968, 28272277063124901215,
        19001386003729809626, -4791868025868856934, -4191532744512872136, -5948156137229546094, 205850730114217849,
    );
    lemma_next(
        294,
        14394004987731497323, 13903509802638315002, 9035392916605015009, 4292182473134034578, 16461468904779742272,
        6430349272483141591, 2364932639434471306, 16187792440800863334, 15078132619677986058, 13158808572895901145,
        14856835591871935878, 4497682039429438368, 18362145928709790266, 13241885018662580861, 11579671091423435840,
        6657145593677720282, 3980344371135568587, 5339180657388380788, 6772108642636727796, 11395011649506795696,
        12768371550985212958, 10044120976148999421, 17720351172399154040, 7244835146717145602, 5509953346705561649,
        -96575423638393009326, -7767360699865131359, 10812133850522352580, -97481249733583658122, -37512428395386210067,
        107992618044316791392, 104921001602836057820, 80548412411943081474, 52090794415325916740, 43387522272506415412,
        29178716721595734592, 26628218324532849605, 19338304137677602778, 23876596895830652475, 19135067596264238331,
    );
    lemma_next(
        295,
        6657145593677720282, 3980344371135568587, 5339180657388380788, 6772108642636727796, 11395011649506795696,
        12768371550985212958, 10044120976148999421, 17720351172399154040, 7244835146717145602, 5509953346705561649,
        7314586197662438972, 16703956167718512006, 6078565115999382930, 2016402390292965733, 16082559545671346471,
        7953050679177238140, 13683438988376967468, 10697263736665621183, 14833850240468897667, 8811366799423353211,
        707166636861854169, 13651279729777274866, 3166090421857230002, 12695029778025726058, 18390028749066827073,
        31802359813151930611, 49069914563215003981, -7266955597856134645, -8855434049475718142, 15551235190611831006,
        94265870571523403256, 45705410107573688589, 30494270186326709055, 54671796254757346456, 18409063574100884077,
        -28600339750757204601, -19124703937414900561, -31576346691994306696, -4630008446426763061, -10231667734544507289,
    );
    lemma_next(
        296,
        7953050679177238140, 13683438988376967468, 10697263736665621183, 14833850240468897667, 8811366799423353211,
        707166636861854169, 13651279729777274866, 3166090421857230002, 12695029778025726058, 18390028749066827073,
        5840874365100080750, 17545279618344393010, 2737774270332686110, 3642372759691750237, 7235145868659673482,
        9220811171503134423, 4612912478037429286, 6148060666630798853, 2439396927894641698, 9847123748076502678,
        16966551099908873859, 16732387867991686877, 18016469748275558144, 17424013193641711290, 5534380415915178237,
        -130197774587448311325, -185871211202070217438, -105817626852164046296, -62191621544632386131, -64743559127850165583,
        46382370826352766097, 19711303073534531805, 26993241488287248085, 16027832319894524840, 11916870547896371940,
        15529369664717363004, 13899888622725042436, 23849986650247663661, 8128552331748252889, 13429736957808321798,
    );
    lemma_next(
        297,
        9220811171503134423, 4612912478037429286, 6148060666630798853, 2439396927894641698, 9847123748076502678,
        16966551099908873859, 16732387867991686877, 18016469748275558144, 17424013193641711290, 5534380415915178237,
        3900873343804452913, 16277115520572436374, 7238038919959764267, 11126430750777689128, 7115041419171855574,
        11159910238511819942, 8052502111394848749, 7048526907228240492, 623885766828186775, 11262807971605380044,
        11240365770501959386, 14030244543256010163, 12319491160270112977, 6403346289030916705, 5793608256703189616,
        108635563501132215060, 78987149304220744085, 65476358027676431968, 21720530763525613194, 41161021657191478903,
        64688497217795345333, 43767940459759408543, 43173143546513070212, 25712170502542459781, 25484787656085890317,
        -7629916632975132723, -1861616423590365517, -4447218592004472481, -4567960849537601547, -1873276691162997952,
    );
    lemma_next(
        298,
        11159910238511819942, 8052502111394848749, 7048526907228240492, 623885766828186775, 11262807971605380044,
        11240365770501959386, 14030244543256010163, 12319491160270112977, 6403346289030916705, 5793608256703189616,
        9929376163698753260, 11421379699468719234, 16611512855834673508, 18033931578407844665, 8541185869222613330,
        4863307509549199308, 373240657196111958, 3028887004212338731, 8865225275053355384, 1031075087325307377,
        8309413641096917592, 17050847530078936608, 12083893728044205308, 5639925398232204293, 16277340890622005218,
        66418794088047081655, 25228579552287382366, 59666127446854702893, 2875314331673710292, 23599175411722241672,
        134513200843227904488, 111335340302261201859, 75054914731894047981, 51848702225270204110, 46485407449381046939,
        22586058215698758465, 17086271066051808228, 31149076887238375176, 25336098441315798824, 14447388963125135143,
    );
    lemma_next(
        299,
        4863307509549199308, 373240657196111958, 3028887004212338731, 8865225275053355384, 1031075087325307377,
        8309413641096917592, 17050847530078936608, 12083893728044205308, 5639925398232204293, 16277340890622005218,
        561823989905564805, 12873899213718136075, 16775561092083444552, 1306310324811508595, 1235716717232935344,
        16417560121463376670, 4489110490789007848, 8050162030195108516, 15207716401591614736, 16373946200851068870,
        8610529644818605287, 16901086773136562223, 5970358078783726225, 15471485913263428960, 7117610811896223876,
        81003413635477029777, 66724009943229831181, 35098466017187780136, 41031820615747076053, 30170915777722662127,
        12319308607591852499, 7804310505468087509, 10531532426688940207, 23743083561587814574, 17154386393789735770,
        -51672636733395109311, -52404201786166139599, -18067017966955714381, -11342085291102611654, -10525525598845095317,
    );
}

proof fn lemma_doublings_26()
    ensures
        doubled(
            312,
            z(17884585322227351031, 17040760698062246695, 10948950644342630523, 3138994260696716871, 17617299181476247858),
            z(12713912712077900063, 16283415354743667452, 11580971803046352909, 16661737469806098799, 4374223015744315396),
        ),
{
    lemma_doublings_25();
    lemma_next(
        300,
        16417560121463376670, 4489110490789007848, 8050162030195108516, 15207716401591614736, 16373946200851068870,
        8610529644818605287, 16901086773136562223, 5970358078783726225, 15471485913263428960, 7117610811896223876,
        10370903530746892715, 6003208791709314081, 8160032554089562670, 921479172958248229, 12243794930452567664,
        9919099020873998086, 7681632676015476173, 16663562950425740081, 11269097120767931057, 5831187984854953040,
        4586551469811646651, 8803179591896265905, 11338233490358809442, 11066260600887068615, 10627070513077455643,
        -101278876846852359579, -193516344931735636943, -200166157923637058432, -158329336201148526968, -83707267374956165246,
        32183662457062585723, 39384910349530319684, 14798641309292928604, 30727235241047629689, 17976518020137957778,
        11525441234802919307, -2249938879642832386, 6415726435886570371, 19316482926604466771, 7552586637587694211,
    );
    lemma_next(
        301,
        9919099020873998086, 7681632676015476173, 16663562950425740081, 11269097120767931057, 5831187984854953040,
        4586551469811646651, 8803179591896265905, 11338233490358809442, 11066260600887068615, 10627070513077455643,
        3474130034996915206, 6550892131198937063, 10513771255587101800, 10359193764557237599, 12959160217191784425,
        14139442913119559999, 15750631024594622809, 17371481635856227293, 9760474472409232310, 6960079381610161519,
        9040823548988825777, 18096874663135984684, 14693119654182260657, 9277290547888505668, 15882983304150482113,
        -105420294893972220049, -53562914319292472076, -29274620565671889457, -22379871015809838870, -51008902650714507783,
        63692492346536697315, 64236477789379845524, 49951650629643038684, 38681462326684068159, 18231234848961336975,
        -17616471878067042181, -3899020693986942865, -4126583840735564737, -9315452283163719689, -7576535778995259598,
    );
    lemma_next(
        302,
        14139442913119559999, 15750631024594622809, 17371481635856227293, 9760474472409232310, 6960079381610161519,
        9040823548988825777, 18096874663135984684, 14693119654182260657, 9277290547888505668, 15882983304150482113,
        1344346115207060673, 11708153709601158353, 1260877919453377230, 3235767223198024898, 13522620723451835730,
        2650658586105686144, 16833781679283637088, 10639159645023512517, 10112212272901092595, 13592783731275126434,
        2009237264093434072, 7084956962644465166, 13066225002206827401, 1483123266483408491, 9181848820113954946,
        -144263051668758187848, -141877949202619267905, -102654660128246354375, -62009724571449312089, -95385623269200903403,
        52921872791757901527, 8955099781192322564, 21847069156962336406, 31810974264904814413, 6164648786214741676,
        -10703470706414842335, 20473462218127996338, -3675449788023069367, -8397965566695447546, 7985552066677515949,
    );
    lemma_next(
        303,
        2650658586105686144, 16833781679283637088, 10639159645023512517, 10112212272901092595, 13592783731275126434,
        2009237264093434072, 7084956962644465166, 13066225002206827401, 1483123266483408491, 9181848820113954946,
        5109304465561103451, 11082509268047525013, 14020789120671028554, 1830272562087982531, 16360066489206685043,
        2640260204626846025, 2426585911307581276, 382213157472429848, 5542505264223370754, 2682252458886755875,
        1631639200797981543, 777319671892113303, 17305784137448924787, 16995566119880518559, 6491793681608157484,
        -242944870215491830383, -86892990215197377992, -157218782265891018192, -80566575903742075852, -53794897508250406393,
        68735149794670374366, 81292599331858346209, 24164440932429327433, 61389110871391958489, 21918647152581515965,
        71472834205882606022, 57525228730636197322, 26910407838609458109, 47408424074563736966, 15002037347800898687,
    );
    lemma_next(
        304,
        2640260204626846025, 2426585911307581276, 382213157472429848, 5542505264223370754, 2682252458886755875,
        1631639200797981543, 777319671892113303, 17305784137448924787, 16995566119880518559, 6491793681608157484,
        17194510427284686313, 13566532599323820864, 14540693429634077101, 8142742621454456627, 7289570392365682010,
        11174964733185108358, 17060931758317147493, 3295964833199101412, 12729539336162193158, 17293317634141924273,
        6555467681089928194, 10943988832215820042, 3883128716559735234, 7212725079170189604, 16093973031625937002,
        150194367122826039792, 102525333588597259717, 77675695238916181212, 66625018245683493025, 59657457081419629226,
        86704899997738942403, 70550390336507609546, 56391175895419982954, 45209497950422121784, 37028242899231929414,
        -78395406061641661428, -67441078641936077696, -48075258380588442992, -41466485339966578279, -31034162632505130989,
    );
    lemma_next(
        305,
        11174964733185108358, 17060931758317147493, 3295964833199101412, 12729539336162193158, 17293317634141924273,
        6555467681089928194, 10943988832215820042, 3883128716559735234, 7212725079170189604, 16093973031625937002,
        17849172857959245026, 14560500275422000903, 5364119729663927605, 8038246663759104871, 8107421764557479311,
        10318763067539334649, 8106505815292563834, 17970409676685762670, 4195167051880614093, 13982030242211144066,
        13191009632517484348, 15833543944647872327, 4774986211175248879, 1795908811657705054, 18198491077385671431,
        -208641070563275516441, -107983630402288558715, -184420293221058112979, -135860856182439400649, -75173390051421513100,
        69691994046013213159, 52831062409041668109, 43070750131069241541, 34713524649698255756, 29939002185700093491,
        8737811916535647163, 4037063397288923068, 8699263553131460697, 4017902082528649263, 9951483238478381402,
    );
    lemma_next(
        306,
        10318763067539334649, 8106505815292563834, 17970409676685762670, 4195167051880614093, 13982030242211144066,
        13191009632517484348, 15833543944647872327, 4774986211175248879, 1795908811657705054, 18198491077385671431,
        12165311371841624676, 10895947594897825229, 1744717174978617316, 1334499805134687513, 9406384958695586224,
        14768147099473922834, 11003008995202079200, 11550127695399924509, 17126701723870194892, 6958532449548833669,
        3376331687636601256, 4835838602922199347, 10484967838316470990, 11795670340752540441, 13260592869725823249,
        -68050570666613060490, -218788948074903874048, -87345604910702925068, -88252482197615096260, -67736683350195750538,
        42116571446689616708, 19999016982036085031, 12820075014110660976, 18210809334842464074, 14148216115253158417,
        2804612060091985450, 4469540702435028992, -16155520099584520412, 5412597521294911313, -4877538926300866681,
    );
    lemma_next(
        307,
        14768147099473922834, 11003008995202079200, 11550127695399924509, 17126701723870194892, 6958532449548833669,
        3376331687636601256, 4835838602922199347, 10484967838316470990, 11795670340752540441, 13260592869725823249,
        13078768816085881990, 7894655924030018682, 14101977109695485072, 13068788774836569075, 2438484843709215561,
        12654146371606096081, 13716231255478520604, 17857707448815828253, 2766048490411160034, 7819658513274832816,
        7953267847859418568, 15020778795832369595, 16944758536617674549, 14203584655256233018, 8722551459819757555,
        -161857111301318789929, -145360721521690112015, -101568124156688817432, -98832393709456290375, -63739419127682915573,
        75478617924806971403, 50155692557893671223, 33740742912140141903, 31569065589652187293, 25424416208338744910,
        18846074763752122280, 25026594301337786990, -152366283652433232, 6564280047242904659, -929322145224812653,
    );
    lemma_next(
        308,
        12654146371606096081, 13716231255478520604, 17857707448815828253, 2766048490411160034, 7819658513274832816,
        7953267847859418568, 15020778795832369595, 16944758536617674549, 14203584655256233018, 8722551459819757555,
        16928122011213173142, 15712648565652946362, 722505192328593863, 4723458940823518082, 3506198459623527224,
        9002565820991147893, 11462050790851924371, 5339083304594390914, 2390322619644311398, 3118275515397842957,
        15681387215422786803, 13151637141876526944, 7889849236475239611, 10280459451373019222, 14898471709637052040,
        -73222704947287185426, -112133590110168986441, -38292024349674917042, -50755134161779061070, -44138778216670191469,
        34563695320716759873, 33290641124413579113, 20096605798081622844, 11899324941414180122, 14510139246725518284,
        26310700741615357613, 13158304959038680258, 17376871720375052194, 14712068830758163173, 6395963376873056590,
    );
    lemma_next(
        309,
        9002565820991147893, 11462050790851924371, 5339083304594390914, 2390322619644311398, 3118275515397842957,
        15681387215422786803, 13151637141876526944, 7889849236475239611, 10280459451373019222, 14898471709637052040,
        11536997259253890707, 4397609417607088541, 513023420192979964, 4661262739011931507, 16837647737165531811,
        169780359800962318, 12851284699334776723, 1145236925968167468, 3905300547766914662, 5342755963414750852,
        9244175108120750653, 11193284557240565218, 12153072345211864679, 1236404003123485917, 4333327674093347249,
        66119458849420272408, 32613506292912670471, 51628815087741598995, 75222585878661063035, 36571386640119021672,
        32077352773257471859, 11843888087855511880, 27218064409905856983, 52181850871780859731, 23297976534092376498,
        3181945903635579626, 11386850367790921923, -3297391964412590267, -3845731687499704959, 6075499331214183087,
    );
    lemma_next(
        310,
        169780359800962318, 12851284699334776723, 1145236925968167468, 3905300547766914662, 5342755963414750852,
        9244175108120750653, 11193284557240565218, 12153072345211864679, 1236404003123485917, 4333327674093347249,
        15065915000148754479, 5542127749552696584, 16153072056659832992, 14204495621924764098, 8826658738746433838,
        9619740947127100971, 4616820915153594302, 134983222771653275, 2883753514438964000, 15955989360300975417,
        7495126675397426790, 10668134189232458746, 13986900610713014564, 17447989478066679314, 3249348479321423677,
        46324727947643182623, 73087622383802768653, 19054803429943854823, 36672869022831116734, 38357384236361727126,
        102845795306776018042, 88241234357844837272, 68830911778946415925, 45578880229395061788, 37097678245462225091,
        -446137394752384822, -20184535128772541627, -28026918273900832550, -14163405098734576633, -5657529548034278693,
    );
    lemma_next(
        311,
        9619740947127100971, 4616820915153594302, 134983222771653275, 2883753514438964000, 15955989360300975417,
        7495126675397426790, 10668134189232458746, 13986900610713014564, 17447989478066679314, 3249348479321423677,
        14075211134227993177, 8792248562188281910, 6157393695060857721, 11888505347929889342, 15844195749594736603,
        17884585322227351031, 17040760698062246695, 10948950644342630523, 3138994260696716871, 17617299181476247858,
        12713912712077900063, 16283415354743667452, 11580971803046352909, 16661737469806098799, 4374223015744315396,
        77426481029065724106, 148878175204108497681, 90212923679743144050, -59951990334783727147, 3296137297965274153,
        79860242759280386468, 68134999286579965191, 74854386095922280977, 64838365500338446764, 37566937746154971131,
        -61858719105003221641, -43440907369830994120, -20801333052273400484, -19103303251999761762, -20104641050573381854,
    );
}

proof fn lemma_doublings_27()
    ensures
        doubled(
            319,
            z(4290739547668160462, 4414444320864360104, 13341412719882091143, 6277196213122332219, 5576063673169056362),
            z(18415399034023995868, 2303835577927685432, 16508880364753167495, 12848080367287322033, 1057930854054715856),
        ),
{
    lemma_doublings_26();
    lemma_next(
        312,
        17884585322227351031, 17040760698062246695, 10948950644342630523, 3138994260696716871, 17617299181476247858,
        12713912712077900063, 16283415354743667452, 11580971803046352909, 16661737469806098799, 4374223015744315396,
        12361174087909516767, 7143967479023866314, 9712898069663301227, 18322871715096153471, 3565536365098663028,
        7892340838439529071, 6231405679475732432, 9217572102243989224, 18106158317929117226, 7486064748259856708,
        13962743852832300408, 14177810387462833959, 4243980599514689645, 6650192671158041432, 11399599042088343244,
        -210751560518515140342, -133935856215310075064, -77964806099768460685, -151595217561624890152, -71150660384199733891,
        74454341999981880210, 75438173667263194553, 37033479139972997432, 34146991812603562774, 24084728340204503445,
        6251445264104848813, -16479486535249199519, 32118363302621242291, 12132429568290596311, 14572320078198962846,
    );
    lemma_next(
        313,
        7892340838439529071, 6231405679475732432, 9217572102243989224, 18106158317929117226, 7486064748259856708,
        13962743852832300408, 14177810387462833959, 4243980599514689645, 6650192671158041432, 11399599042088343244,
        9426089864471569718, 8746379256662455116, 7163886927644862114, 14699294502222472909, 16964374483075007268,
        12808384002326780631, 7592534400519405360, 6648114839417877569, 3950469010844242887, 4549396628843886847,
        8363299180577685793, 8441266747381567690, 4466573238428210424, 16543999939409913521, 16373430826359101380,
        -57784535848084556100, -133769908538025824351, -42414174872987066356, 14482364682740680880, -203662492847740910,
        87329058447265889835, 83607234321654889067, 92576773821397976015, 68619149587020346305, 34058472288419861989,
        20544621915995257998, 41323813909156163382, 44833120610523279116, 12107780158591957121, 3604668489348380816,
    );
    lemma_next(
        314,
        12808384002326780631, 7592534400519405360, 6648114839417877569, 3950469010844242887, 4549396628843886847,
        8363299180577685793, 8441266747381567690, 4466573238428210424, 16543999939409913521, 16373430826359101380,
        10325822360100547178, 6534921822981872885, 8960047501906830345, 4252372669292640406, 12396298080014149568,
        13628421264526105976, 16311030598614199855, 4280793601334098753, 15102760041749151883, 16402997197379953174,
        15625982378623908966, 2776082142656635218, 12968949474011110438, 14697748463912179434, 6112659016133453508,
        46581512257604761906, 35227999624213073280, 53849668500751388506, 56786701763694603829, 13626614530124886633,
        44521916934584934626, 46383980737563556993, 29491762546602993962, 36100112044394843481, 21243003072414301785,
        -45247054108215493286, -25383559651472455612, -32842482987307683904, -33724859875553304016, -11997018744509915084,
    );
    lemma_next(
        315,
        13628421264526105976, 16311030598614199855, 4280793601334098753, 15102760041749151883, 16402997197379953174,
        15625982378623908966, 2776082142656635218, 12968949474011110438, 14697748463912179434, 6112659016133453508,
        2238673631035066276, 12329021651099626177, 17041836234138209217, 18087865742468267162, 11807812078795774345,
        11941152241231524286, 15666497478248496155, 11591537434264705414, 17099456279163294306, 1677469079041392136,
        8991913414352676304, 8254070175881853773, 15973102290451149219, 14732753560528361687, 13355329714338649512,
        -157625021110907163777, -60381760966987351796, -175833312040234377931, -140776681257658408126, -85275050548350408045,
        147884469413129119412, 121651537128922838641, 81845105323569530173, 49844962708519152845, 42788214064511533833,
        3928797278774637549, 22105570588974705484, 40585186081586852200, 25398935325162855664, -4589372215006798590,
    );
    lemma_next(
        316,
        11941152241231524286, 15666497478248496155, 11591537434264705414, 17099456279163294306, 1677469079041392136,
        8991913414352676304, 8254070175881853773, 15973102290451149219, 14732753560528361687, 13355329714338649512,
        14243779146531835463, 11406614077675400759, 14334714836280511139, 9130583625384819098, 5943252833218353060,
        791197797190549637, 16666975481258429212, 616721862722312670, 15893103927008248031, 12139646590179541040,
        775975773671804116, 18393912389008359843, 3049125211711014164, 16293614843547387155, 16490374652801550484,
        -46720794018925046777, -61709100124815364565, 4066865589283244229, -36800858028746619418, -37865474309434603976,
        75620145380978467692, 58884010033526437284, 46841007170782652737, 37572804907488030467, 31609420948079692973,
        7343448144030640610, -5868891508973139734, 2150721614730421641, 2346995670652751178, 4293025990443574707,
    );
    lemma_next(
        317,
        791197797190549637, 16666975481258429212, 616721862722312670, 15893103927008248031, 12139646590179541040,
        775975773671804116, 18393912389008359843, 3049125211711014164, 16293614843547387155, 16490374652801550484,
        9423250078865112392, 14985507428550677095, 5208182484353327244, 9715334240367513763, 18330805276523270851,
        6770243833272757353, 4870850746272783600, 3356942570853679115, 17587945726172492433, 13069137084140746086,
        14552391545569390618, 14794983186425286256, 11525125426269915344, 17534355559637712362, 17163987942836226948,
        20979704167631129488, -17175291730915178994, -50903941188583829836, 51790682685212792222, -23384760434143232144,
        110619605711884508259, 61713253885341524987, 75420401595415463264, 73034559600236951460, 35983321158879617444,
        24081272687635554131, -10465440046782717150, -26303311165225072, -5681300922562534314, -2354122177843363114,
    );
    lemma_next(
        318,
        6770243833272757353, 4870850746272783600, 3356942570853679115, 17587945726172492433, 13069137084140746086,
        14552391545569390618, 14794983186425286256, 11525125426269915344, 17534355559637712362, 17163987942836226948,
        3615494039531667267, 15348868337807106593, 190488871553530876, 16071953920767548154, 2136531166985910424,
        4290739547668160462, 4414444320864360104, 13341412719882091143, 6277196213122332219, 5576063673169056362,
        18415399034023995868, 2303835577927685432, 16508880364753167495, 12848080367287322033, 1057930854054715856,
        35827599390952347372, -73706762079787966120, -104193054157114923006, -63737781146369511638, 6820503381395805821,
        12370799962175865097, 48157685800540451050, 24014783483754460716, 7359454882583266615, 27585254330884452062,
        -6398175850572596225, 28479329404889638511, 21963829746712998025, -1322260264177667063, 11461606303458697726,
    );
}

proof fn lemma_once()
    ensures
        times(start(), 1) == start(),
{
    lemma_offset_proper();
    assert(times(start(), 0) == infinity());
}

/// The point that takes the offset away is the opposite of the offset doubled 319
/// times.
pub proof fn lemma_offset_end()
    ensures
        offset_end().point() == opposite(times(start(), pow2(319))),
        proper(offset_end().point()),
{
    lemma_doublings_27();
    reveal(doubled);
    lemma_offset_proper();
    lemma_times_proper(start(), pow2(319));
    crate::group_law::lemma_opposite_proper(times(start(), pow2(319)));
    let y = z(18415399034023995868, 2303835577927685432, 16508880364753167495, 12848080367287322033, 1057930854054715856);
    let e = z(31345035390588453, 16142908491486898889, 1937863704661416826, 5598663702127262288, 17388813215359868465);
    let o = z(0, 0, 0, 0, 0);
    lemma_of_ops(o, y);
    lemma_same_class(o - y, e, z(-1, -1, -1, -1, -1));
    lemma_of_equal(o - y, e);
    lemma_zero_one(QuinticExtension::of(y));
}

} // verus!
