//! Poseidon parameter bundles.
//!
//! A bundle fixes the scalar-field modulus, the round structure (full rounds
//! on each side and partial rounds in the middle), the round constants, the
//! MDS matrix and the domain-separation constant added to the capacity lane.
//! Two bundles are provided, one per scalar field of the MNT 753-bit curve
//! cycle; their moduli are the curves' scalar-field primes, the matrix is a
//! Cauchy matrix and the round constants are drawn from a fixed public
//! expansion, so the bundles hold nothing up anyone's sleeve.
use vstd::prelude::*;
use crate::bignum::{NLIMBS, limbs_val, modulus_wf, lemma_val_parity};
use crate::field::{Fp, fp_wf, fp_from_limbs_reduced};

verus! {

/// State width of the permutation.
pub const T_WIDTH: usize = 3;

/// Rate of the sponge: elements absorbed per permutation call.
pub const RATE: usize = 2;

/// A Poseidon parameter bundle over one scalar field.
pub struct PoseidonParams {
    /// The field modulus, as limbs.
    pub modulus: Vec<u64>,
    /// Number of full rounds at the head and at the tail, each.
    pub rf: usize,
    /// Number of partial rounds in the middle.
    pub rp: usize,
    /// Round constants, `3 * (2 rf + rp)` of them.
    pub round_cst: Vec<Fp>,
    /// The MDS matrix, nine entries row-major.
    pub mds: Vec<Fp>,
    /// Domain constant added to the capacity lane on every absorbed block.
    pub c2: Fp,
}

/// The modulus value of a bundle.
pub open spec fn p_of(p: &PoseidonParams) -> nat {
    limbs_val(p.modulus@)
}

/// Well-formedness of a bundle.
pub open spec fn params_wf(p: &PoseidonParams) -> bool {
    &&& modulus_wf(p.modulus@)
    &&& 1 <= p.rf <= 1024
    &&& p.rp <= 16384
    &&& p.round_cst.len() == 3 * (2 * p.rf + p.rp)
    &&& forall|i: int| 0 <= i < p.round_cst.len() ==> fp_wf(#[trigger] p.round_cst@[i], p_of(p))
    &&& p.mds.len() == 9
    &&& forall|i: int| 0 <= i < 9 ==> fp_wf(#[trigger] p.mds@[i], p_of(p))
    &&& fp_wf(p.c2, p_of(p))
}

/// Packs a flat limb table into field elements, reducing each entry.
fn elements_from_table(flat: &Vec<u64>, count: usize, m: &Vec<u64>) -> (r: Vec<Fp>)
    requires
        modulus_wf(m@),
        flat.len() == count * NLIMBS,
        count <= 65536,
    ensures
        r.len() == count,
        forall|i: int| 0 <= i < count ==> fp_wf(#[trigger] r@[i], limbs_val(m@)),
{
    let mut r: Vec<Fp> = Vec::new();
    let mut k: usize = 0;
    while k < count
        invariant
            k <= count,
            count <= 65536,
            flat.len() == count * NLIMBS,
            modulus_wf(m@),
            r.len() == k,
            forall|i: int| 0 <= i < k ==> fp_wf(#[trigger] r@[i], limbs_val(m@)),
        decreases count - k,
    {
        let mut l: Vec<u64> = Vec::new();
        let mut j: usize = 0;
        proof {
            assert(k * NLIMBS + NLIMBS <= count * NLIMBS) by (nonlinear_arith)
                requires
                    k < count,
            ;
        }
        while j < NLIMBS
            invariant
                j <= NLIMBS,
                l.len() == j,
                k * NLIMBS + NLIMBS <= flat.len(),
            decreases NLIMBS - j,
        {
            l.push(flat[k * NLIMBS + j]);
            j += 1;
        }
        let e = fp_from_limbs_reduced(l, m);
        r.push(e);
        k += 1;
    }
    r
}

/// Builds a bundle from flat tables after checking the modulus shape.
fn params_from_tables(
    modulus: Vec<u64>,
    rf: usize,
    rp: usize,
    rc_flat: &Vec<u64>,
    mds_flat: &Vec<u64>,
    c2_word: u64,
) -> (r: Option<PoseidonParams>)
    requires
        1 <= rf <= 1024,
        rp <= 16384,
        rc_flat.len() == (3 * (2 * rf + rp)) * NLIMBS,
        mds_flat.len() == 9 * NLIMBS,
    ensures
        match r {
            Some(p) => params_wf(&p) && p.rf == rf && p.rp == rp && p.modulus@ == modulus@,
            None => true,
        },
        (modulus@.len() == NLIMBS && 1 <= modulus@[NLIMBS - 1] < 0x100_0000_0000_0000
            && modulus@[0] % 2 == 1) ==> r is Some,
{
    if modulus.len() != NLIMBS {
        return None;
    }
    if modulus[NLIMBS - 1] < 1 || modulus[NLIMBS - 1] >= 0x100_0000_0000_0000 {
        return None;
    }
    if modulus[0] % 2 != 1 {
        return None;
    }
    proof {
        lemma_val_parity(modulus@);
        assert(modulus_wf(modulus@));
    }
    let count = 3 * (2 * rf + rp);
    let round_cst = elements_from_table(rc_flat, count, &modulus);
    let mds = elements_from_table(mds_flat, 9, &modulus);
    let mut c2l: Vec<u64> = Vec::new();
    c2l.push(c2_word);
    let c2 = fp_from_limbs_reduced(c2l, &modulus);
    Some(PoseidonParams { modulus, rf, rp, round_cst, mds, c2 })
}

/// Part 0 of the table `mnt4_753_round_constant_table`.
fn mnt4_753_round_constant_table_part0() -> (r: Vec<u64>)
    ensures
        r.len() == 300,
{
    vec![
        0xbddfdf62338c6859, 0xb7d88978dd78f45c, 0x16355afc98fc99b9, 0x7153fe5cc2ae85b8, 0x1ecc0eb342a31e28, 0x26a5bfc818b5bc38,
        0x1394e37aa5b57f80, 0x556d7b9bd341351e, 0xd90f2f504f912ffc, 0x5665bc78c7cb3cc2, 0xdffc673b5368ea7e, 0x00005ff00c5e0c8d,
        0x437f31ebf51569b5, 0xf71e0addcc5a5964, 0x4191556be0c0d3e3, 0x48dac975b545b8d4, 0x61b0ba273686e39b, 0x9d5fa7e7e29eda70,
        0x3f832f943bf8bbe1, 0x04e7247eb575b7ed, 0x9f37763ddd364d3f, 0xc2ac4e87d16d5a62, 0xea7b258d861df786, 0x00006cadde8ee08f,
        0x8e99a46074a2f3df, 0x329273e6e53f8c7f, 0x7009705c90fbca7a, 0x4c4bae4825136f0e, 0x4f57ecabfdebfb67, 0xa10f4b900324aba6,
        0xc29ae8731df51195, 0x7db97292323fd5f1, 0x6b0bfcc70de4eadd, 0x399cabfe009724e4, 0x8affeb147bf32d49, 0x0000874c06791240,
        0x9c631cf09d24da63, 0xa38e4a419575bd27, 0x0636499463dc88e6, 0x3b8bc78ef2ac3958, 0xc8016ae265824633, 0x0a8e77c7273f8294,
        0xf8d50fa16f51f741, 0xc85c3e8a608cdb26, 0xfe43834e038cec0f, 0xb53f4eed69f83ef2, 0x078ba7e23e8d03ea, 0x0000826d383e146b,
        0x1c546cd6f26b020d, 0xaee181047d35de05, 0x3f992026cc405ee4, 0x56dd82d46da995dd, 0x0ba631f15b5c4982, 0x8068ba748374610e,
        0x884aa001635f223b, 0x0d42c834dc53f12c, 0x53bdd6c62257cc8b, 0x95820ba6268a1ebb, 0xba8bb9b2b21cbca1, 0x00013fa45083a0a4,
        0x58911bcf30aed4bc, 0xe0c7b6680721f22e, 0x1a7ecc31a5e7fa86, 0x11c080b6e1622fb3, 0x5962b1344f7ee9d7, 0x7c951c41362026ff,
        0x5c86cb01a2ca4dba, 0xf11ea3cbc61b6a8a, 0x9dabfc7411b8f455, 0x7c5188d8180fb100, 0xe7d403d816fe7a3e, 0x0001a14e82e3ddda,
        0x9900d43d872f13fc, 0x0b2b62b521981b07, 0x98c10315c42eba53, 0x38c62e307123fe38, 0x1dcf15fe9b6ca44b, 0xe8264814bcb5be43,
        0x689a4f6a43871203, 0x329d40a11768116e, 0xa4442984e528152e, 0x082706794ccd1462, 0xda470bc8cfe644ec, 0x00019246b8156e83,
        0x9b3b6e0b82fca40c, 0x75e20e8dcaa0c47b, 0xeb4a795b159113d3, 0xa7a58c6120cad94d, 0xf29bb82c7656de01, 0x5aaeca3647b3bee8,
        0xf67da091152813f4, 0xe359a6d818951af0, 0x99ffd0a33b2a38b3, 0x8b53cd3133ecd27d, 0x2c82b9624e7ef078, 0x0000c1af928ebdf6,
        0x59354f94731c6ebc, 0x2a0d6d4ba2c0a06f, 0x51add47986585137, 0x92f874638121ac3e, 0xad84f5f0c94969d9, 0x3885afea717612a5,
        0x8665c1ed7c7aef3c, 0xe2e3c4701713296c, 0x9ed8fd9e81fda097, 0xcbd93914d6ae81a3, 0x15f49ab9e489200a, 0x00010f6ecfd8f092,
        0xf4b0c459faab0911, 0x97660c43c468eb35, 0xc6aa534bf1110958, 0x58b03212d9a57fcd, 0x42a5895670c6dcc3, 0x74f1a81a1cdb0502,
        0xc4bde57018bd2911, 0x2d75cac429ccddff, 0x304b0b3a67fdc3bb, 0x9563b0f94445117c, 0x4a3f63cac1848f23, 0x0000493622be2159,
        0xe433cd00c370dee7, 0x079a5a3dd54f6f6b, 0xf95ce029ea32f075, 0x74aa9ee2aaa372fe, 0xb1160d896ec48585, 0x00cd5be51b2dd55a,
        0x106dce782cf2a6ac, 0x88aba731f18a0a66, 0xb45d3115c4818c8f, 0xbc21d0d94da04b5b, 0xe9daa8ad803cc8d0, 0x0001998ef3b57050,
        0xf59e022b41973495, 0xbcbec37fb4133852, 0xfe0860d85b95d0c1, 0x07ccc26153433699, 0x011e63df4d96547b, 0x1ddbd46c1ba8a27d,
        0x6edfcc480e8bce72, 0x6b6419abd34ee1fc, 0x21107de582412af8, 0x2393a1235c2d77a5, 0xedd6b08e7fc61545, 0x00000bb18ea45aea,
        0x2488775381867088, 0x18970a3168007a32, 0x7d7c4897e536b589, 0xd2c3682436930c85, 0x4b57fd165af02300, 0x96703fa5bf3f8e77,
        0x3f91775b17adbdad, 0x1742462e355288fa, 0x0942f4998b8ccb22, 0x77a10b488bdc2a41, 0xf41d141a40f5a942, 0x0001a9701fb1144b,
        0xdfae77794b34f86c, 0x6bd2a71b46432964, 0x5855d3c18a695a2c, 0x45120d2b52d4153b, 0xf32db369ea18332d, 0x7a93e3a86c4eee13,
        0x745fb16bee59b2a4, 0x018bf03c5bb86256, 0x52ecf904b6cadfe7, 0x0386ea32b2e205df, 0xa9fdfa061112b7f3, 0x00009135c66f2253,
        0x23baf9b0f1800de9, 0xe7f0e0473b42f6b3, 0x67e1b29ef7d733fb, 0x837d5f205d1bb83e, 0x42a3970d3252e0e0, 0xb81ea7cd95d1cb27,
        0x56fe16b648255f2b, 0xf901e4a70f010dd9, 0x1b57d3eb096e4ac1, 0x52972d585518afd4, 0x035ec3b26fdf6620, 0x00019735b6b432b5,
        0xfd2aafc620a7925b, 0xa7bc58953ad62848, 0xe512c10577d4c792, 0x60ff4d5dafc08228, 0x707f66463c10cd34, 0x86589948f0a09fee,
        0x2218254846456c3d, 0x4d812ba4c6227214, 0x0489da2df8f2cfcf, 0x48c443d308fa5223, 0xac87a3ae5cef48ce, 0x000141df5b41ddde,
        0xabb3896fed0a4f8f, 0xfb8b8e803a17b54b, 0x1d2607ae7d1add7e, 0x70dbc5bbcdbcd7d4, 0x007e906a767f8836, 0x2acba76f1ab9fe26,
        0x5425a3b9eabde982, 0x202def4ad8acec1b, 0x9c159371f8257a8d, 0xff5e90ebdf481804, 0x8162a15297438f45, 0x000117a929c287b7,
        0xc33f4279caab6cf9, 0x61df4d2951a6ad8b, 0x3e9781c6011c418c, 0x1aef804d83cfbe6a, 0x6c3d6c1326aca347, 0xf4afbe93755d2934,
        0x0b14a8c595728095, 0x22a30a3ad79ed4fe, 0x764b56caa3c97d96, 0x9bd0f62f1acbdf49, 0xee42e3e39efe1d37, 0x0000afbb5876c3a8,
        0x6a08977ccccb01be, 0xa337a53c974f88d9, 0xc2cfe3bd6d1b7922, 0xec84e89dea169fd8, 0xa1e6c5190a1a0d0e, 0x9f627c9b3172abdd,
        0x8deb11fa4f4b4bc8, 0x22025daaf9d9549b, 0x49d55f4cc4dad115, 0xf25889ab816d6848, 0x44fed63faab6984a, 0x00004f8d2b10e9a7,
        0x5282aa71cb13b34c, 0x3f68c715402d9fc5, 0xeb589083494bdf7e, 0x0d29825182d28ed7, 0x1a9daf9452e28726, 0x9ff7dbbff4129b49,
        0xe83f9e368fefaf43, 0xb8291679c0646629, 0xc4647b9e291bdb5c, 0x5c0829cf38f95b81, 0xf3e4a1b7c26fa2a3, 0x00010bc5208841b8,
        0x4754bf2ae8894a16, 0xb52e5444955c93a4, 0xf52482871e68c773, 0xac111994cc82796f, 0xa7e2d6f2d1e996a3, 0x30352a16528ea074,
        0x4024851fb387ad4d, 0x29eca0901dea3780, 0xef4c630127ebcf39, 0x8f48b28188df5361, 0x836a51b4e2e46782, 0x0000d59ad8a27ea7,
        0xc200aecbe51f3c7b, 0xf8927e9ea11c383b, 0x72a278699a1a14da, 0xc0a778d0949526d2, 0x2fda4b7d25bc195d, 0xcb4dc6b2fc34a6a5,
        0x9ce47365d06f2c15, 0x8eb271c96fd881d2, 0xb3044b62ceb66ff3, 0x61b5bd9590493916, 0x00b7aaa2f3bf2fd6, 0x000063de098c04fb,
        0xc7aae77fbb822e19, 0xb25093a97463db0a, 0x92fe2bf131a0f416, 0x8a8a49bc65b17350, 0x7f3f310ae99317a8, 0xc75ba952088cc77a,
        0x33625bf2e21817eb, 0x342d6deccba2854d, 0x30d2d9ee7b882cb4, 0x35b947536ed4df15, 0x4847a7b1d63e2b64, 0x00014076f57a25f0,
        0x70419ce448d694f2, 0x82cb6444e60150f2, 0x61b571177d3570ec, 0x6289a01037b01e3e, 0x4b81dc15bc4f10b2, 0x9387fa73fd230712,
        0x05ca4ab1253835de, 0x532b140fb66bb0ea, 0xbce17f47b0e4c46a, 0x2d7364e5b6f4e215, 0x47e612d16fb047db, 0x000145a18ea11af6,
        0x07148fd8239dcb38, 0x99ef3c6c393d4605, 0xd7463b83eda7bafe, 0x79a7228741f8e997, 0xd7670f57907e66fd, 0x462607af21f12c2e,
        0xe8b9542bb3da154e, 0xdd7287e3a42fb948, 0x6eb589a20cae1998, 0x17cf70f7ef0b7719, 0xe481c008b1f13e9b, 0x000032135a6af570,
    ]
}

/// Part 1 of the table `mnt4_753_round_constant_table`.
fn mnt4_753_round_constant_table_part1() -> (r: Vec<u64>)
    ensures
        r.len() == 300,
{
    vec![
        0x9fb44744f6111b64, 0x9cc4956c4531a0ac, 0xc7c0b9f9fc95240d, 0xd27fa56e15aee106, 0xe7053d40eb7f9749, 0x7cd4f81a0c4532bd,
        0x96e054094def2752, 0xd19d05ed7bc0ef45, 0x7dba45d2c7e2eaea, 0x9802d47ea89a01d0, 0xf254fc8a575a79a7, 0x00013eccb1057b9a,
        0x49f18b80c090ebd9, 0xedff8758b196ae54, 0x07f8adcbbd07b258, 0xd95a2352f3085981, 0x846e7321a591b0ec, 0xfee730643fb9828a,
        0x17b8cd59e1b31dce, 0x294c06cf925aed44, 0x7c82deabf90964c3, 0x00a35b99e19eae70, 0x8a5ce72835ed7e2a, 0x00000fda7c9140ff,
        0x65dc0ad8bcded730, 0x45ab74f753289118, 0xfe8bedbe24a2743b, 0xd5b6f53c4344dafc, 0xf132d23e08de104c, 0x1f1291c541000ea6,
        0x82ac201745613351, 0xc7c3fc9fbf8375de, 0x0d11a0191c76b0a8, 0xb8bcdac3b3039cd5, 0x2ee6d4ee03411d31, 0x0000af234b7538a4,
        0x607d291c60e7dbbd, 0xebac53c932e9787e, 0xf4e26f3b27499ad9, 0x7af0d1b2789acab6, 0x25b2f6f71f7a3588, 0x27452a189da5c9ad,
        0xfca44a58f36803be, 0x6cbc128b985fb4d9, 0x475542dc1b64762e, 0xcfa26cdb4a37af37, 0x9c1f1b63a71241db, 0x0000e4fa0632c09a,
        0xae9b537740d56eef, 0x2755137ed8e9f260, 0x028fdf0059255ede, 0xdcefa3a4e7ea7a27, 0x2a2a9378835790fb, 0xe026ff8ab9ba9cd2,
        0x61333410a80d2aa8, 0x65a2172db4fcb1f4, 0x806963263e5aa585, 0x83e3627a30e45d55, 0xbce7904b4e48d091, 0x0000e9b2052ab761,
        0xe804a5e5a989a0ff, 0x2c6ea5f559587ca2, 0x6814d3439f55fa4d, 0x1b3a540088a798c7, 0x4592414e8881be7a, 0x50079072a7fc9175,
        0xe379693d8fba1aca, 0x57227805d0095d75, 0xab492db8fb7a998d, 0x9f517202dea57a47, 0x943ee773206e487e, 0x00005d31dceca0e0,
        0xe1825457afbded35, 0x725499877431b61e, 0xcec390669cfd78a3, 0x099956c1046f3090, 0x0aa116e469fa7e56, 0x9dc2d1d943df4ef5,
        0xd863ae63a852deaf, 0x866eb2c426e1a3a8, 0x1fc7440915e3c910, 0x2a79370083ce3e71, 0x5d6e42bb33311d56, 0x00017bbb3787a641,
        0x2ccf9bd502187cd4, 0x7a19db61a9bff5b4, 0xece3019f113f35f3, 0xd003f90e1b157c68, 0x5bfdb816b74ca6d5, 0x26a876fe92d8ccfc,
        0x126aa59f49097a7f, 0x90000d22b06e702d, 0x08ad5d83759444cb, 0x524340f8b655fdb2, 0x95037d790c021977, 0x0000b268329b24b2,
        0xc385e772542e806c, 0xed79a8ed1bb53bf4, 0xe02629248a4382b8, 0x4f8246a048483a19, 0x323b170d88f776ce, 0xcaa436b0c8e92b81,
        0xd9604482c1172c49, 0x8a6dc42428896996, 0x00eec50fd788be79, 0xaa1d4269b5d76497, 0x56ab761f3d44c105, 0x0000abd64fddde4a,
        0x0a0040e196b14855, 0x84b927330a136db9, 0x6d7feeb9505be1c7, 0xb36c6ab84bdfbc3c, 0x63480bfc3104e9d9, 0xb2f03689a9053f71,
        0xb870ba4eea0d8e01, 0xf8b3e98c9ddd298c, 0x33349394887e325d, 0xdd7d46ea1455ffb4, 0x7444ed1d036d6729, 0x00008c1169f1c0e9,
        0x7cbb161b254c45a6, 0xb3aa37a3fc73b6c7, 0x49c494c26db3681c, 0x924ccbf740653edd, 0xfac19a81c4a8d61d, 0x30e07dd966a7bbf0,
        0xc303bd37da6e37f5, 0x2e0e95ea7045d95a, 0xdb0a730af177aeb0, 0x0d9b983ee955f1b6, 0xa68e2e8a71b79fc7, 0x0000780b1a21e60f,
        0x5dae8ea903ea4c89, 0x99f339b8fd8533a2, 0x5af1cd5a3b641242, 0x938a46c8991b0a90, 0x730a7fa5bd710837, 0xc0adb9e293ccaf8b,
        0x42a0af63c3743a47, 0x77630ad2b49ceb5e, 0x1dd2726167d508b8, 0xb2c67853e79930f2, 0x0db50391fc166a9d, 0x0001b9145b69b020,
        0x2292071c0b59c294, 0x360a281cfaeb0f00, 0x8d14d78dd387d713, 0xd984615c25f99d94, 0xb79942fbbf09bef4, 0x7afca4380c57c6d8,
        0x224a5ab4cd74e5a7, 0xfcee0e2376f67167, 0x1734ec95337bad80, 0xd4899f4dfec5f2ef, 0x49486eaf08169261, 0x00012a565eebbd15,
        0x3d01694a58af65ff, 0x88376060d2c7dc8e, 0x927c6496628f962c, 0x9cc19bc7b4c5b49c, 0x7d3fcb39e5138b0f, 0x5cef137e581ac32e,
        0xbb3f548b2dfb7b95, 0x3691e40a851f42a1, 0x3815a2a7492e0b84, 0x4950da45ee64b733, 0xf3a42e4476051b28, 0x000077eb48d1c44c,
        0xca821ff9dc450c46, 0x64951f8633aeec32, 0x81cfd4ac8e0535e9, 0xd6af52808c4390f6, 0x410224b510dd0f1e, 0xa4b27388f6748926,
        0x8e250286fd82d14c, 0x3735edb972e66122, 0xb7c0ee4d6ecaf8c7, 0xb22a5b270d42b8ef, 0xb31a96ca3a078370, 0x0001a2bae875dbbd,
        0x5f2a1544dc57cc1e, 0xd1633a729f5492d0, 0x09d0444ce151ffbb, 0xaa4b4a1636287b39, 0x49da841608514a7d, 0x1e29bec6f837d164,
        0xeb679d2f1930b724, 0xa75673be77e04bdf, 0x47be2efd02a32cd1, 0x8e818ab6c2f888d5, 0x2c016d364d059b77, 0x00019b9ea7eba01f,
        0x819c9d817c702465, 0xb0ffdca15604ce1b, 0x3c49336a853fde8b, 0xa8bcef3f2af120ab, 0x9907a23f2418aaca, 0x2d548cf264f406af,
        0x1188553b7b39093a, 0x6b42c0c513b19826, 0xc4fd50ae4091e0d2, 0x08097026d41654a3, 0xbd0e1c384680fa7e, 0x00002f325bac2201,
        0xc9758fc61252281b, 0x36fd599dbe7e9226, 0x02e9f58ee661191b, 0xfe13a3b8e969f2e9, 0x6aa8a3d479cc1a91, 0x55bc246931bbebe3,
        0xb3e72187de9400e2, 0x8be4f3b1acb2d561, 0x36bb8c2e78e90dd3, 0xc601ee4c0207479f, 0x82f947c245616bdb, 0x0001b0a470c1af06,
        0x471402a98a9f4b9d, 0x7ea2f1a5ea7088a8, 0x7c6c14fcd59f08a3, 0x0848234adcf810be, 0xe4964ca42d846959, 0xbf94c7aa14b105cf,
        0x473572de669493ff, 0xf9d7310b0479a18f, 0x4a012e385c41423d, 0xca3b57cbd0501a0b, 0x03ac814ba0e0cf3b, 0x00001c65e0cdaab0,
        0x989b0f8046a57e22, 0x75cb1b5db013de7b, 0x73fef82871b526f0, 0x1849ed4f2bca0932, 0x2e1793e74d55cc96, 0x091e7a7f3ac3f6db,
        0xe75ad6551605b367, 0xbf1ed230eee069db, 0x534479d5faf7c91f, 0xfaea5e9b049e4125, 0x80c308e121dcb23a, 0x0000c60545a58702,
        0x8bfef2b0e0f72549, 0x7748a9baab86977c, 0x43c8f791056b1492, 0x84e03a9bd8496dcc, 0x730bd0da54e7a812, 0x37bcf7e9817caab0,
        0x21a13fa48f50b391, 0x4e0f45e6e5e88ec8, 0x489ece933858096c, 0x088bbb820bbc78ca, 0xb13ef8c1e158e06d, 0x00004a6933d4109c,
        0x629bbddb3bb4be1f, 0x7b9d93130628d134, 0x9d2142907d591d61, 0xaf1993ead4a178d0, 0xe1925eda5f51bd9a, 0x6e72004c0a3defec,
        0x7efedfca7bda07ec, 0x25a195f314506b06, 0x4e2b9258fd12d645, 0xc64d59911d86d52b, 0xa2b1f58be35aeccb, 0x00002d1dd482853a,
        0x5a1adcbdbb71b93c, 0xff3ed4889f80cd75, 0xe74815c5215b80e5, 0xdac585d151cdf564, 0x5496d0996c8491bb, 0x2474886cb2a4f70c,
        0xd8711117e0e40864, 0x83ad02cb9872cb08, 0x03edd7f100ed578c, 0x97a578da4ad6d84f, 0xfead99d68016f2fd, 0x0001775bf525b378,
        0xbe452d1aa0ec56f8, 0xc3d4a90da655d443, 0xf44feff372fb988f, 0x58258a559a77f6b9, 0xd12d15c2c8553d5b, 0x9b45d4d4d33d28a0,
        0xfdecacf6425af255, 0x5a8468d5043f7413, 0xcfbb31b4014f83d8, 0x542ea477b100a5b7, 0x7ac2ea681f1e125e, 0x00015b9f68dece07,
        0x00910b029e11af5d, 0x5de118eb0a93a5c5, 0xb6cb3875bb29c998, 0xf851188215111233, 0xff7b96a0d9362068, 0x892ee6aa4e835bad,
        0xa9fdf297d66cffe5, 0x97a5ff885cc0c2d4, 0x8cca7b98890d248f, 0x228783872117b948, 0xd557bda595048563, 0x00015544ef3eaa62,
    ]
}

/// Part 2 of the table `mnt4_753_round_constant_table`.
fn mnt4_753_round_constant_table_part2() -> (r: Vec<u64>)
    ensures
        r.len() == 300,
{
    vec![
        0x3dc2b4c876b83c3f, 0xb5a0510622b47c80, 0x7337170f6517ba75, 0x7318a76194dbef2f, 0x4831c7f2bf48f71c, 0x01ecd9ccaa25e66a,
        0x42744ea811c5dcf7, 0x2f1404a18e72797c, 0xbcfd2d07bfe15d23, 0x83dd0bbbe1f66ecb, 0x0b569ce66cc21dac, 0x000165606813448f,
        0x7437b077a9402fce, 0x2292384aa6efea11, 0x0b77c1787c558b18, 0x97de8847209f9265, 0xe94def247ef78ba3, 0x12597f14dca06368,
        0x6ef5c1e8d0a538c0, 0x30edc67927436ddc, 0x54a3b7df041f141e, 0xe27738dbd9f0c4e6, 0x7550803cef7293b0, 0x00006cfa89cd998a,
        0x63a776e13c57b2da, 0x32c221f995383883, 0x3b8cd5bde269ec36, 0xdd776e825a9e3d93, 0x84c29578d6e5dfae, 0x1e6f74d2a3e328cf,
        0x8913f02946dc014a, 0x9b325bf656fad53e, 0x33330f8ed4b91405, 0xaa11526538fbc997, 0xfca691da611d71f0, 0x0001b000ad206e0b,
        0x2389b47e6531b0ae, 0x2d3ed57ac9ca92a5, 0xbbcdada091639903, 0x6546b5dd6ad3233b, 0x8afb97db982813bd, 0x62daa17bfd7d07b0,
        0xe378d11cdd2b4f20, 0xe41a6dac444b336b, 0x5accc03a172ed873, 0xbe1ec957a9cd0fbf, 0xc6407ec0d1dfc830, 0x0000448ddc7208f0,
        0x8868e6b2c22fcf50, 0xb98627a824788a04, 0x49b70f880e95b0de, 0x1b34deeeed306058, 0x7cff0b0e8d400a06, 0xd7b9dbf3577111a1,
        0x9afa40010bfa8287, 0x14c7425c5a35c6f8, 0xa876e6f2a04bd5d1, 0xd84a07951cb7a921, 0x0460117368fa3e1f, 0x00005341d9440313,
        0x9bf29cc9d9f52efb, 0x825588584db0dfa8, 0xe192f8a63e512404, 0x28fb7280ce53d2ed, 0xbbc1beb5b6a83537, 0xb0f6c572116d16c6,
        0xec2e08865a1c24eb, 0x79ca1848644ca183, 0x1e3ccf929a2521fe, 0xb19ee2e4b896bdf6, 0x7d763eee4a0700e5, 0x000130bc7d223d9b,
        0xe84a512c7e2e78a7, 0x9c34f5bdf4e27f31, 0xc2c542f7f4b70b4b, 0x8bb5a8388f1f03fc, 0x9fca961933c5d03d, 0xf02131cf1dd562d5,
        0xe29fbc1a33e54e4e, 0x1874914be3917df2, 0x199cd1f39e1e320e, 0x62b03e30d6165c72, 0x00eb97b12a9e3f9e, 0x000074a9012b6d52,
        0xcb8d9f43f6a6a8e7, 0x30030ee2a04ec1aa, 0xf525a58399fb16f7, 0xc6a57bf014b7b95a, 0x954198b515fb6e79, 0xf86652c0ab5d8ea7,
        0xe0394c7ffee233d5, 0xc8628cf74b073a15, 0x45d9d50050b55d15, 0x96db480d39e2134f, 0xa65df82591400da4, 0x0001838bfca7d00b,
        0x2bbc271ed99074a8, 0xb89abf9daf6929b7, 0xd132113c96e26276, 0x3316bb668e0457f0, 0xe8e0cb0d0c851c6a, 0x916ed0ccd21b4406,
        0xadc42583ebbad454, 0xcf4db776cc2abd04, 0xa65b051c6464735c, 0xd7a130bcbea96f47, 0xc44abb4a95413fbc, 0x000162ddca77c74d,
        0xea88c37d17c5e4f7, 0x3c83bb6d283037b6, 0xba3df07f7bead446, 0x1120e7c753e42c50, 0x0e684e8e7ec991c0, 0xb27d9add94afd6de,
        0xd808cd0c6fa2dcfa, 0x38231152dc381d7e, 0x63a8534c9faf7816, 0x8807e49d3312234b, 0xff74bec299e435c8, 0x0000d1ba096fb320,
        0xe885c917790f7404, 0x846a2cd9b5525d9e, 0xc50edfb3b539382a, 0xc299c832418f27f3, 0xbacc65d3fb46687d, 0x75a318d94428137c,
        0xb1369a0f0cbc41f0, 0xdc893f0f94eb7130, 0x4593dc4dcf50f37c, 0x733615f599cedc16, 0x7f9231243315fa9f, 0x0000548657266a6f,
        0x3e5de639c2a9610d, 0xda9160d96dfad50f, 0x7e6e49f725ece18d, 0x41736e2ee49f76aa, 0x06a846f53c817290, 0x5fa20090a4d8bd42,
        0xc991d957e57fbeb3, 0x175c43e1f2714bdc, 0x49ba5cfaf886cf3a, 0x7e9322af38ef501f, 0x6247b424ec04c6e3, 0x000047e7a95cafac,
        0x248b4f19132c3871, 0x720e093ce023a68a, 0x59e28e31488daf19, 0x3a66208e0412e198, 0xf97f8218f88f2b30, 0x7ab6cfb77246ee91,
        0xaafb4d3f526eeba7, 0x90dc366b115f4ac2, 0x5ac097d92b3dab60, 0x0da35a890e053477, 0x2b29b52a5aad1d02, 0x0000d38ae0e68785,
        0x244c9b6c2bed1bb7, 0xbb210fc282cde558, 0xeefb71f25d228bfb, 0xbce26ea4690b54cc, 0x708dd1268d4cb509, 0xa6789d9123410c60,
        0xf1c60fe289e656f0, 0x22762091fc9173ce, 0xe85a75dc9b026933, 0x7baf68bda3431d2a, 0x299c421bf7f77e25, 0x0000ab1415af01d8,
        0x4faa0c433481b07e, 0xf339275abc64b0ec, 0x6a93cead7e95f858, 0x573583024020b945, 0xd76077dff525889b, 0x58211c47dbf4ceb7,
        0x79e9b40e8f124252, 0x870ed5fe911ea2ba, 0xd7ee52661b6227a3, 0xd01a66ba9e057066, 0x755a808f966a26b9, 0x0000fcc89d8bf813,
        0x0ac38fe11f4085af, 0xe017aa46eb086928, 0x1797f3d4b873b8bd, 0xbc694aa578c85ca4, 0x462a110e4f0b86ce, 0xfe4ea6427b2307e0,
        0x405ef66d4d1ae49e, 0xf8ac8e265a06746b, 0x4fa48c2a2fd3f7ca, 0x345ab75e756000f2, 0xca374837b1fc362a, 0x00010a221905acd3,
        0x3d3ba66f4ff871bc, 0x2664deacda4b3847, 0x3aafe40fc205f270, 0x6b838a4fe032c3c4, 0x5762485d547581a1, 0xffef30247ff155d3,
        0xd077077ba9ebffba, 0x2c1952f428cf65c2, 0x5e1f871d321af9a3, 0xc10b40d0f2f9a713, 0x3d0d1ed1c3d5cd1c, 0x0000a8c1251d8f2d,
        0xda305afd68e7a7a0, 0x3baa4ee323db0b43, 0x6a94df8e8147355f, 0x53da6bb3f9993743, 0x10ae75d204ae35cb, 0x86e862222a39a4c0,
        0x4b78800db78df429, 0xafd010971922aa80, 0xcc217c2cf6003fe2, 0x60b39b0ac5bcf464, 0x3aafd8039bc3c75d, 0x000092ec800d974f,
        0xeb51a9318e6fc2ac, 0xd226a3233d92fa37, 0xcaaccd5a4e42a709, 0xd2986df64d23861f, 0xd2032d8461b833ea, 0xae7f834138ffe497,
        0xb2e8e3a50f43f7e6, 0x9bf79d18142f6503, 0x9ed0b0d2245e6823, 0xac15080dd7245ab3, 0xcf8d3a061bc47c12, 0x00019c0911dcea5b,
        0x654f47755c86372e, 0x3deae5bd8562b535, 0x185db5569ef2647f, 0xebed5394af1c2336, 0xb3a6d9da4b795741, 0xaa40548b375ee8eb,
        0x4ff82ad1d51b41ba, 0xb28d6929a0feeb89, 0xc4d4e6167431690e, 0xd3b236b5a1cf81de, 0x4feb6988d10efa62, 0x000162307dee9fc6,
        0x7bc6b0534f9e9b35, 0xdb952b011cd630ed, 0x49b0b6281cf42d4a, 0xaa16e3d63ba584e3, 0x240ec40780239779, 0x4e0e38b72c847a82,
        0x97fef07d4ec7e197, 0xf25ae8cb08326d0c, 0x45572de84c61a19f, 0x71698bbfbc8a4f54, 0x0e1748a76c078f6a, 0x00012cb4f4f32a04,
        0xcad844a943c3938e, 0xa6b1df23eea05099, 0x30ea880c591470e4, 0x8778d17a24f0d4f3, 0x3a1e5770bc97f797, 0xf85ce9bb783c3c72,
        0x1c5e57f1fc244be7, 0xe3baae56ff3160b2, 0x18963d6b2e768f2d, 0xb8cae8113aafef24, 0x4c89b2a4f8f262fb, 0x00014451452d79a5,
        0x6a177420dd4386c8, 0x6a5e68fabfae34ba, 0x5ac4cbad9e44725a, 0xc114a66e0c93f38c, 0xafccb61802d2d002, 0x0f6ec650d4503831,
        0x1e6eb7e317ebc216, 0xcb1bbeadab41956e, 0x557c42468fe4f06b, 0xc843d1c9d518fc6f, 0xd10048769fd7efa1, 0x0000ed4809ae26bb,
        0xa90f8aef4fe8841b, 0x4651cc58bf31081d, 0x875b9bb5440469da, 0xf0ea6ca61363bf56, 0x44606792dbf2e29d, 0xf716fba32153a80b,
        0xa34ecb87301b98d8, 0x7e58d4444eb93d24, 0x017755ec06490f82, 0x3765f4af64758803, 0x330e27b2ed983fb0, 0x000016d9485e64db,
        0xc4c12f9379e0449b, 0xf0399929222a58b8, 0x60467d6be079ae49, 0xa1523acccf938451, 0x470613368070e43b, 0x726e71f8b7f42231,
        0x4f04ebdd177dd106, 0x6bdf0a7a29457e4c, 0xfc75f0b5fa68e95b, 0x4b78811bfc5a36db, 0x003665322d5dc22a, 0x000165edb5e356f3,
    ]
}

/// Part 3 of the table `mnt4_753_round_constant_table`.
fn mnt4_753_round_constant_table_part3() -> (r: Vec<u64>)
    ensures
        r.len() == 300,
{
    vec![
        0xc98dc8093b0106b8, 0x468965f06191e387, 0xf2d74ed4298a48bf, 0xa8b546ab4ac48ccb, 0xe1b70f88b6170092, 0x2e4a7e0616f1cb1c,
        0xb94ab29246ded2c8, 0x5c032f59a4596f6a, 0x98aaf4e2f7184fb0, 0xa40adfc3c67af586, 0x66fc2b593f25acdf, 0x0000395d75c7be97,
        0x35a326f8f6f7887d, 0x7538779a77236b9a, 0xdc9e20ce91aa6c19, 0x02aeba99853d82c2, 0x965923a6a240df3a, 0x3040352c057319dc,
        0xeff30ed82ad85446, 0xf74d5b6d350fafa7, 0x2730a639968fae6d, 0xf70dd1a63b8a4de2, 0x38415144e811523a, 0x0000d890cd01c10c,
        0x031ea8a74caabdf4, 0x07198effc06566ec, 0xa47b83192f31d3ca, 0x2704849c66843572, 0xa82c1ba9dd1ac00e, 0x0112ef838b1e544e,
        0x0e98edb1af28fe97, 0xf76daaeccb40b0a2, 0xfb89893739fa3f56, 0x1dad10ffa96ca556, 0x4f9f864e730613c1, 0x0000e4597b3a3157,
        0x3426dd2b832a4048, 0xab2b4e1638110d49, 0x4b2ac4c5361a870c, 0x3ae3cf5f516bff78, 0xc3bfe6aaa0d7ff31, 0x443e8ac1da95a9b7,
        0xd9b1a60b475e4243, 0x008e509cc7e07458, 0x19dc6a9d8c00ccef, 0x04969ede84e1ff66, 0xe4eeff5419d2c511, 0x0000d11a90efba97,
        0x822589515fec1fd2, 0xf106cf9c6b9e0bac, 0xe6f21a2cf7bd5963, 0x6296ba4c0f670fb8, 0xc4ffcaa46f0d7338, 0x41b71454aac0c929,
        0xdbb971471d5b0608, 0x831bf025f33011b3, 0x0405d625bbbe6dcf, 0x17eb9be74ab5fff6, 0x75be70b339561665, 0x0001bf252f96e7f7,
        0x1a8e401cd8ec8d11, 0xc197a311fd8ea5ae, 0x79736e7de38d98f6, 0xb7bf5e14f459476f, 0xc8cf048bafdf711a, 0x163de84c662f1577,
        0xa401e927ba85621c, 0x84cabb38c518a1e3, 0xe0c4c30a7f326f11, 0x9bb8b37f86e79779, 0x99552456431464c8, 0x0000a43d2b381e06,
        0x94297c0876b0ac80, 0x7b04b4259c65a3ea, 0x03faba05f812037f, 0x4106f963731ae492, 0x8a06c1dc7f4b6d00, 0x977b75175f1de653,
        0x724a70c2d1cf6b68, 0x3906e38cb643bd95, 0xbb82e14ff422041e, 0xf6bcaa8137f1347d, 0x8d2c48de55fee3f6, 0x0001b8893de8e297,
        0xca9afdffdd8530d5, 0x5ed33dcc2fdfc88c, 0x81e8a14d255de516, 0xec41a3569d2932b3, 0xb375ad7e0ef92138, 0x02cb99c7adf2a1a7,
        0x7cd20ea435fcde76, 0x16e1411b86e01b77, 0xb5ee3f0a6037b747, 0x635c756dddcfef99, 0xfe21d15182ea0cc0, 0x000078aa999203d9,
        0x5295ff038630ff48, 0x7bd2c51fe3403823, 0xa091693a21238adf, 0x76e711edadd1f227, 0xf3cb96bfef6706d9, 0xd9a95760d16bffac,
        0xeee57308c54c0c00, 0xdb3aba137cdc8763, 0x54062b2868cce256, 0xf92787cbcc3b0e44, 0x3dbc92d49e5a99ba, 0x000070198b1c3e2c,
        0x5b7771d69eefcd3d, 0x7b52267aa49c1afa, 0x5b7652c754f90a6d, 0xb6507ad75e8901cd, 0xa560eb124b0827e7, 0x905b2c97c4b0d5fc,
        0x53cd1eb91f4c31d2, 0xa4396b043beca6b3, 0x6b202918391bcceb, 0xb4138635fd8733ad, 0x8212961001000b3f, 0x000018f0f4a4098b,
        0x83a3781916cecb73, 0xd1f7a4af422666b1, 0xea8c5f32180422f5, 0x157d135194c47ec5, 0x30e520e22f13d622, 0xcf660d19b91c5b3a,
        0x50e1cf175467573f, 0x4f4dd5f10e2cc8a7, 0x2cb1b0bde9e25965, 0x74e3c1a89c57ae93, 0xae012d4caadf6686, 0x00000ccbe9cb9ad8,
        0x5b40feae027fd869, 0x606e4db279f8a0ad, 0xe188a490bf586612, 0x1879b691a306af8d, 0x0dec1eedf49da5d9, 0x3ef37a2fc3ce4237,
        0x3f60a487347eded8, 0x89171755b9fd708e, 0x2f42329056545c43, 0x3880e4d20dfddc9d, 0x3d3f05d67c9608cc, 0x00014a8d77c204cf,
        0xe87664cc3cbe4ca3, 0xeb38e3ec296cb010, 0x1f9e1d200baa42f2, 0x4e81408e7a7b76e2, 0x7c4b87a5c64b7a83, 0x773927b2d9b77960,
        0xa3383b65f86adc1c, 0xed6908156ef31d8a, 0x307f93296c72821f, 0x659ebe2d6d44ec22, 0x58f45f47dc6def9c, 0x00008880933e42b8,
        0x1862512f110abb74, 0xb7d3ab3812cf5081, 0xf43d638cadd69f0f, 0xeda765e9eedca38f, 0x97d7dcc769efe9f2, 0x95641d05287a9915,
        0x18f05366a0090840, 0x27f869d3d7547f9f, 0x09f21ef10d51de13, 0xf2b76abe8c7a145f, 0xa80973361ccfbde2, 0x00006f538a096585,
        0x91cc9c9af1af0240, 0xf10577172d2cdb45, 0x03b91f160e3bf5b2, 0x2b9985b3099ea779, 0x1e12df3fb7e96723, 0x28015626912a51d9,
        0x00631bb1e563bddd, 0x533e579da3bbdf77, 0x981a2b68cd275654, 0x45d306367e008702, 0x7b3204a6af89b23c, 0x0000d910f542cd08,
        0x6c25cbc87857d014, 0x2c0a9a23ccb93a05, 0xd72db02d411216bd, 0xa1dcccca880ec414, 0x6f6cd5de7541ec97, 0x941b4f4857e151f6,
        0x5de43e8430372cfb, 0x24ebd23a10f15047, 0xbc992d12a217c581, 0x3087685de7e9788f, 0xc1d6312e419f8e36, 0x0000f53810e54006,
        0x53b561b58d96c704, 0x13a31214fc897266, 0x2f8f481fbf795ca7, 0x71e8f00815b39fe7, 0xa7da705beea652ff, 0x3033caef0d23cebd,
        0x02e847633fdebcf0, 0x9fde91e7f121815e, 0x5685fd85e270ef9d, 0xa3caf2066abc5cbb, 0xf7217b0549512abf, 0x0000f459f77cca43,
        0x7a9ed6060621f69a, 0x0c80f56415615ed8, 0x68a318de4467abbc, 0xabe00acac2c6b4a0, 0x537b7c785804692e, 0xe02bccaceb433c92,
        0xf67cd5d42601d2c5, 0x9e2f385cc872e554, 0xf54801ea782b47f4, 0x59aeafffb2cf86c5, 0x8588f33de067284d, 0x0000ca69a7b45b32,
        0x88632813539d8d0f, 0x2f927455e0ff71dd, 0xfd8339b733a544b2, 0x4b62549f3cdfb0ee, 0xe0666d36465c5475, 0x2feff0058182b972,
        0x44872206b92e6757, 0x8b605f5cea4b756e, 0xbdda19fbd0721e72, 0x787f33f8ae7c4bdf, 0xa15299b46c4ee443, 0x0000b05240b58466,
        0xe72fc5a023b25c98, 0x5fbd835c376c3508, 0xcadc5d4ec74a7ceb, 0x826fb104b68a71ba, 0x37f10ecdbe9ed911, 0xe12ec627bc2d5612,
        0x7d7bbc3627f97214, 0xfd75552aacc61caf, 0x08c83104096e5b17, 0x77661bc2974ad3bf, 0x9ae89dc89180875b, 0x0000397598e7b8d7,
        0x4e5fa208b516eb3e, 0x2aa9107d708abee7, 0x1986704767f63137, 0xea3f5b881fc5fca2, 0x9d6e9b566daa847c, 0x4d73118343a94a81,
        0x2f8a25c70772dfe3, 0x96cdb75de4d95e02, 0x45061a6f1d30fa93, 0x41feb8c5f9eb5576, 0x4df3ba44d79cf1f2, 0x0000151df8e358ef,
        0x19a168430b18b702, 0x2964c77eb24fa64b, 0x7c627b6f76957023, 0xeb3e2f5f528c5587, 0x1e99405c66f85844, 0xa566de9029c01cb2,
        0x8cec5a2c78621c0e, 0x683247c6e6170e52, 0xe26f11813c010a09, 0x8fc49fd5b3ba02ad, 0x39aae6dc4378519c, 0x000069d30b013d62,
        0x4cf3b933c5746773, 0xc013f97abb1ec56b, 0x3431e77928f52b43, 0x566452af7f74f382, 0xb43b4374af989014, 0x54b77665d3ce9c3f,
        0xd8689221c729039a, 0xe0bbfd2e8f73a48c, 0xd0a4ebb13a65baf8, 0xf09e52f0928385d4, 0x5b6ce574d6a748f3, 0x0000a1519d65ca47,
        0xd46d6365717e549c, 0x0c4c49f190ed2ab8, 0x7ed737f1025a7c0b, 0x7ce2175e023b6653, 0x4c00681302f6d76d, 0x91886b6d18d0d1a2,
        0xac7e8366335c0ebb, 0xf3852ed107323945, 0x4eaa014384b1d91e, 0x21949d7f233c590e, 0xf0e21dcf01d163b2, 0x0001554645e51967,
        0xca141c6a1d6232b1, 0x4258569327b9cc14, 0x9a9a368ffda2945f, 0x4f18cbe8af2f67e3, 0x6fc4e45737bd70d2, 0x33af2bd3231b32ce,
        0x3a29f6bcdf21b013, 0x2a6eae5d88a2462d, 0x48604fe3d5742b86, 0xe69ead638b535a14, 0x1599b49691a0c5bf, 0x0000be51c348fdb6,
    ]
}

/// Part 4 of the table `mnt4_753_round_constant_table`.
fn mnt4_753_round_constant_table_part4() -> (r: Vec<u64>)
    ensures
        r.len() == 300,
{
    vec![
        0x18abd88bd0015f47, 0x645d280093e1fd11, 0xad425eece56a48e1, 0x7667b138ac3f4163, 0x026507df0b8618f6, 0xc17d5c849ab2eef2,
        0xc13d67fc401ed3a2, 0x78f8c50b97bb469a, 0x516adc4d7befbd47, 0xce0a3924e864b06e, 0xcdba73d56876dcaa, 0x0000c9db5686ede0,
        0xedc83a46e8618f0a, 0x6b8a61de1a0f7e5f, 0x28d070dd3500bee8, 0xf3a4cd3e80ab59dc, 0xbc7305c911664fdb, 0x51bcb8d302a875a0,
        0xa75eaec0a12f56de, 0xa008c20f79c66c88, 0xbe0175ae94841dab, 0x66e9d11cf3362085, 0xd3581e3da3d75596, 0x0000e37a50a7d890,
        0x285fec3181369fb2, 0xc96064b2404c6e0b, 0xf42a475193123651, 0x75df386ec3590606, 0x8210fae9f3fb7d49, 0xa4488eedfbf45f23,
        0xdb4434378054b932, 0x4438bc01f6b052cf, 0x57a266af44a222ed, 0xd64829b6785a7c47, 0xda212ee1a57367d6, 0x0000d28dd9e74c81,
        0x2fb4fcd145ac4403, 0x5ad12cd16e8d19ea, 0x3d0de2d391d0961c, 0x7c579a13f078c3d1, 0x0ec8643d96869706, 0x367074ab9ac0437d,
        0xfbff1e267a8f09af, 0x106e413a9d41c55a, 0x39549f47e51f82de, 0x996ec59c3bb3c724, 0xf6901b2bbe051ec7, 0x0000d479f5cdf48f,
        0xc49d1165cf33a01f, 0x9c1ff723db97c5e5, 0xdd3e478265259249, 0xa633f5f8a499bc84, 0x74ece63c4788a896, 0xc4c9ee587827d302,
        0xb6e28432d41c392a, 0x56b11f9060019c98, 0xdee2ca16bf5ca1ac, 0xf0f87c8e5bdbc195, 0x056fdb059bf718e2, 0x00010b4f94fab205,
        0xd238e6810fe7785d, 0xa77a3c110383b855, 0xdeaf90ea51b2ab17, 0x4043fe68e348d58d, 0xd7cdbefbc1bd8cac, 0x221ee78fd2545afd,
        0x41ccde43b22691ed, 0xa848550cdc134f53, 0x0a1562caad2218a3, 0xb6355480171421aa, 0xd4030b4e9526ec9b, 0x0001a8530cb150fc,
        0x514a45ea196ff205, 0x7ab78b58f35c3147, 0x2d85464019eadd7c, 0x29b30de8463cf708, 0x089d66567cc4e880, 0x85ab3d2401ef0604,
        0xc0baeac06984e41c, 0x4048fadf6e536fe9, 0x4b904b4082638261, 0xf4f6ad9901c4371b, 0x8425b91b040c0362, 0x000130e43b42d350,
        0xe6c5d7b1b4eab903, 0x4d40f925869eaee5, 0xba7e23266269035b, 0xedef0d1b866f972f, 0x9c9bfe892b936155, 0x28425d4f3bfa2f98,
        0x579a45a66a0c6619, 0x9da0a128cd71fc57, 0x7f92afe55fb6639e, 0xe7d8f88a3a41ff3b, 0xb949d72bd5b8c2b9, 0x0001920ae580d3f1,
        0xe3bcb84e4885b365, 0xb568c53ba6e42f8d, 0x329e59a8f35fb670, 0xc23f2d0925f3477e, 0x44444a47ba9808c2, 0x34acc380ea1baf57,
        0x3932a36cec8061ce, 0x21ab36316ed1f306, 0x81f379b7a40f53fe, 0x1b6f97554e00c2ce, 0xe5f510024b36dbfc, 0x0000d57614b49d68,
        0x27a14e40bfd08186, 0x92bdd9724581ca2c, 0x3a341fbd0293ab99, 0x7262de1336c315b7, 0xf0132ced49051537, 0x64d57144f7be17a8,
        0x0d346ed51446437f, 0xea3259e8b5cc72da, 0x88624cf6f2553d27, 0x4650f637ce1d1569, 0x901eaff649dca639, 0x0000f08c61e0ca9e,
        0xe3d47a2b7648ae60, 0x5a4c819a8554c912, 0xf681eb24ae1f6ac9, 0x0f5751d159805c5f, 0x8e815948270b0719, 0x711aaa79d09bd789,
        0xe7b727c21e40e940, 0x0a88ef2f3ebd76b8, 0xc637fca337aafbc3, 0x6e42dfff2069eff9, 0x713980d0f366389d, 0x0000e6bc594315c9,
        0x6f82b1844de67e3d, 0x863970d89162582b, 0x955e4c1680d9caf1, 0x92212555112415d9, 0x2e8b76e051da3247, 0x08af3efe1b3f6cc7,
        0x4443422fb8eab32c, 0xed5ef2887cbef62f, 0xfb95532825d6cc0e, 0x34ad3e394f12b567, 0x01c252ac8fd8dcac, 0x000009c0baa397c0,
        0x114be055befc89a6, 0xb58e151e7d16dc15, 0x94622390d9380bd6, 0xb7a05dc1b16379e7, 0x647d7b5c4b5f6d81, 0x5c63b3e1e230a10c,
        0x19ee9307fea61339, 0x3d07c73c8d85e62a, 0xf4e1ce5959f84ba8, 0xf1132a26906f3e48, 0x634d19bb03973de4, 0x00018b671fa72660,
        0xc970dfe1634142ec, 0x8a35cc1b5f56a895, 0x3d0cbd09e1e4fddf, 0xfb7493a235d3c799, 0xe4396ddabdfc898b, 0xf5dfc9d67bc0bb81,
        0xa2f6b5675de3e7bc, 0x09103e8d152e2032, 0x58c9e381402e60af, 0xb637785be16fa2fd, 0x46047107bc80e64b, 0x0000e1c33254becd,
        0x98441e40eff07688, 0x7da425d5eb078a25, 0x39f638b1a2017196, 0x4ce626b24767efc0, 0x44a6a255c986f0f2, 0x187d26178d160a41,
        0x1e40758c35546861, 0x85b0b666723c7962, 0x9984935042d25fa3, 0x904d30d0d9326d33, 0x5eb6dc1fed62fe8d, 0x000012e968a6eabb,
        0x02cb9f8a3f2e1230, 0x3683265eff5c50ec, 0x2ad259c13fbe2bc8, 0xf1b07f98d023aaa1, 0x42f9910c0e86c335, 0xb4258e8826a0782b,
        0xc3c89c1b6d3cd0ad, 0xdecee8f640411953, 0xbcb14270a9fc5404, 0x69bff0c50aa4f9e6, 0x2d0d4d981bb0f5a6, 0x0000809d31e4352d,
        0x8dc5ac555e7289d3, 0xd069a62dcf9b2d0e, 0xbac0ee29d7a9defc, 0xed302d2b6d68f7ac, 0x84311d5cab058124, 0x326687052bd910e9,
        0xd6553eba68426c1c, 0x96499d7865dd8c2f, 0x3a31beadd56b9429, 0x1988805e210eb59a, 0x013d1751a96b116b, 0x00014ef4cc43f8fb,
        0xc5c33a7d9138e804, 0x9a3c3858ea214fc8, 0x00acae80385fdc7f, 0x10e15581c62b2025, 0x84ce120c0e97fc79, 0x10c5fc13b47acaff,
        0x3b876e578cb4fe6d, 0x2636389fafa6c753, 0x76411350b5c54926, 0x32b540b1bcb43e34, 0x907afe76b98aab74, 0x0001acd710fef8da,
        0x937d0864b0d13807, 0xf35ba0ab1f15136e, 0x7622306694c0d718, 0xfea1e89b79e505c8, 0x710ef9c14eaeb407, 0x31e6cdf7283c0322,
        0x87a2b4b760f8b6b0, 0x8ce0ec717726b283, 0x31dbe077d2136eb2, 0xeca2778ce5a7bb3a, 0x2a17ded946a0e424, 0x00019f2ee138963b,
        0x066fea753339e52e, 0xb97ff31dcdf17c1b, 0xfbd98daa5506a6c0, 0x41984af564588315, 0xab8b85da14effc0e, 0x4e815517df757dc9,
        0xcfb2940d440cc713, 0xc132a9ce5abba826, 0x554274ddaa59b465, 0x0139d5302e2acaf2, 0x7b2df0ff6139afe0, 0x00001c49da6b12ad,
        0xca8c4f2bfd1f695c, 0x9dffe7c0088a60ce, 0x94014ac6047abb18, 0xfd8e66fce1e0b887, 0xea11daa16ab28883, 0xe9ef85f32614e97d,
        0x1b04a2c04c6daa32, 0xe1302bc381b5d7a2, 0x7443faba42da0263, 0x358ca43fb0d81694, 0x116e6c68c08713a4, 0x0000e723ef0573a7,
        0xea778160a15e6d37, 0x02222557f3bd455f, 0x7e828b71bd305338, 0x8058895fd2299e97, 0x5b3b52b5b203bb55, 0x790ee34cf2c46a4a,
        0xd6f608ec945cd957, 0x0932ae004d9a215d, 0xa78146375d109cba, 0xae30ea16dc56e957, 0xe25d8cf17b8c3d79, 0x0000200a6f57b17e,
        0xb36c63172e49c0b5, 0xc98604db876e8df8, 0x1755eb36f4d9f015, 0xab6d19308d4323b1, 0x74ce53da2371e410, 0x8397072fd5e60f84,
        0x87155e515a747413, 0x75c126ef4db22288, 0x655d2def5c151fd3, 0x04faa0980aa0e561, 0xbdabd5233f2e96bf, 0x000185ca7db32578,
        0x44d71e7b62b47f3d, 0x691e9c8148e70cb3, 0x9a208681ef3be445, 0x4fbc82198b0ea8a2, 0xe30664eaafcfbcd7, 0x2071e33bfbfc45b8,
        0xeb99ed8ce1578709, 0xb36315adf9cf36f8, 0xa050b71768987dec, 0x9cf044e20e12b0f1, 0x3e3633463696f56f, 0x0000116ab69a5d85,
        0x34f6b7ad19690602, 0xad2fab1d9d46d36f, 0x7c152570e06ae0ab, 0xad9b72e2eae7edf2, 0x0ae6c0a024a542ed, 0x25ae6e0a2b57a8e5,
        0x59a527959efa78a7, 0xd1cbe8a87bc3105d, 0xb985c10ed297a2e5, 0x188443b2d02c3c0d, 0x13278eaf5ca94407, 0x00010601fbd80261,
    ]
}

/// Part 5 of the table `mnt4_753_round_constant_table`.
fn mnt4_753_round_constant_table_part5() -> (r: Vec<u64>)
    ensures
        r.len() == 300,
{
    vec![
        0x2ac36c168d702dd3, 0xb885902dea2e0a5e, 0x3b94cbb5c77df78a, 0xd1e0618a39e7df49, 0x47dd63ff6acda7b1, 0xb68df69ae251bd21,
        0xf9703a96ff63f04c, 0xcd02c6d773d1b31e, 0x45013fae7f1550a8, 0x3fcedabe4a7a06cf, 0x2e6a27bfaf655966, 0x0000ad44f1a7f46b,
        0xad885e0db36fc820, 0xdbf51649874f795f, 0xb7244ab06524724a, 0x96d3ebbdd626122d, 0x84956cf7b0eead49, 0x24106fdfa4c9c8bc,
        0xd0cafa4ed435264b, 0x7cc2ba1da8225fbe, 0x5c4beac770f501a6, 0x79a46ae28342a435, 0xaf1cdb14a6ae9d4e, 0x0000e71551ecf700,
        0xce0c5685782da610, 0xa1f1e59866055a20, 0x3971747a8c7379d8, 0xf2f1ebc3d15e3e50, 0x82f00ad2dbe3f741, 0xa767fe677836bc2a,
        0x8d62e8d394ef17bf, 0xb714916f742a4569, 0xc03df884b598ff76, 0xa2cf8a8dc8acde11, 0x0d137df3789d109b, 0x0001823641d9dcaf,
        0x57b81c04c0f9afeb, 0x13c95ebd2e9e2f1e, 0x4c21a29bf916d297, 0xf37cc75d765c31e9, 0x04c2ade6ad666036, 0x64ca20a52a8a0bef,
        0x3b91ebef00e48ff1, 0x3445bcb0997784a8, 0x30438abf331b60db, 0xa04f16338364342e, 0x25d239b256cc9fd3, 0x00004c940afad0cb,
        0x07ff3991c22ee544, 0xc484d7b96c289772, 0xfd4e0f58d30887d5, 0x968c139b32051163, 0xf0fe1911a8d2160e, 0xd5dd2184e3ede969,
        0xa7eb2847a31eb794, 0x2bf0971c300bac2e, 0x3173de71e53ce122, 0xb68e07c848386adc, 0xb2537ddc91bb1c76, 0x0000fdcd167e374f,
        0xd85adfebb336f425, 0x72a4b79876e0cd81, 0x533acaf552c90d23, 0xd0dfb1fce77d5b28, 0xd072f29d5ede9e51, 0x9f763c777750f0d4,
        0x3cc66bff25085fa4, 0xa039244db2a825d9, 0x00b9fb50c607bda0, 0x6b8bf5b41635ce8a, 0x95626a9bc9771055, 0x0000f4211825e509,
        0x385d3eac946ab581, 0xa8a5299d79669ebd, 0xd93cc06fb2a430f5, 0xb394ed0f2fa433dd, 0x611cdaadd233f9be, 0xad5fec3c47a18477,
        0xee6e50fa25141d19, 0x665a06c5bba82f9f, 0xbaa0613d46802f09, 0x4b66bb85a3899f9a, 0xf870feb79d6f7f89, 0x00012588365a4f7a,
        0xe32cb7e6024c11ea, 0x47da2dea79cfbb90, 0xea52a023c21e07fb, 0x7edf561968438914, 0xb2eaa6d162b80876, 0xc28e15105ab1f6d7,
        0x7d28b2ede292211a, 0x2cd40030d040e25f, 0xb39ae9951a0b8c83, 0xa8e3e444a3fe1e84, 0xa6ebb1e64455fe71, 0x00000ffc7034264b,
        0x3b05bed4d4621be8, 0xa2fa9fdf3c16d6da, 0x0da9e77a9d6989f5, 0x4924b7be3db2308b, 0xbaea5009ff1a2ff8, 0x74e1608ceb40efa0,
        0x4b40f48c6a5cb4d3, 0xbf98aad3e5a56df1, 0x85addeae6526c59f, 0x6b913ab9f0091b21, 0x0ac9cc0c5822853a, 0x00013fd82e7da58a,
        0x49764b286c2809df, 0x0e449ff02d45f355, 0x794eb5256e2ac71d, 0xd7aa4955515460f6, 0xbb263df54f05f42d, 0x9082bb522cdbe363,
        0x904f697030275df3, 0x6f4c5a726ab5c147, 0x693d13cf3c4d532e, 0x58c4993a5420c4c1, 0x195eb606da02551e, 0x0000b26c8e1e2cd8,
        0x8a9ba9518fc36720, 0xa58cc2542366e70f, 0x0bc9c8c05d4f66d6, 0xea68f400cea9eef8, 0x5c4478794dea888e, 0x6fb8dfac335850f6,
        0x9df947ddd81740f0, 0xc4d243bd8482e722, 0x2f81735f0e9b476b, 0x4b2d34805425188e, 0xca81f64a99ccd17a, 0x00016048a17e6559,
        0xdf715a0cfa577092, 0xa3607a353809d52b, 0x6a53904411bdc6e4, 0x9c982b14a50d32b0, 0xcf0a518ebbe22e12, 0x092955f309a97aba,
        0x5cfc989c89866d82, 0x76bbc487924c5227, 0x751d69e9ac966fe1, 0x9218574b7669901a, 0xdbce109abc4b176a, 0x00006d1d6af4dbb5,
        0x8c1d7c762fb2c6d9, 0xfa98ce13321e5db3, 0xb6f699d2a2c8f46b, 0x70ad584411364308, 0xace50f0701ca60ae, 0xcb1f2485cebdac0b,
        0xdbefda3765253f48, 0x4f9f1e80cf0382f9, 0x64ebe98410a15095, 0x08438064824d9268, 0xc50bb4c0741db7ba, 0x000153e0cc4d568c,
        0x9b87aaeb81bdcf7f, 0x665316791ad59830, 0xf583fbd2de270c3f, 0xcbf4ce57d7d88214, 0x1e1392f5e6366c80, 0x2b0428b3e5bc4054,
        0x66c9d164c76dd9ca, 0x77f06c12c38f0885, 0x84368cca2ca352f5, 0x87b7b72164dc5c7f, 0x094a483b10ec29fe, 0x00014f22f079dfc8,
        0x385caa3d3148ad79, 0x7fc51332935d30bc, 0xc3fd69f1ad92efcf, 0x15694ddfa708da16, 0x8fc6e4517e54aac8, 0xba5d840a648adfac,
        0xf018401674c4655a, 0x818754b742d7e431, 0x7a2b1f2fb0d9e411, 0xe62c61cd9d0f3ce2, 0x2c1bb3a52d6a94cb, 0x000006a6ae90b783,
        0x50720217e6ade839, 0xb4891155af4dafb6, 0x4d25c214256a0f05, 0xf6eeb00f277d380e, 0x86133b4e9c2bc217, 0x3d104617ab6086e4,
        0x1a2c084c9091879e, 0x2eeaf9b9b4c04016, 0x8ed679238cfc5353, 0x0db8fd5be5e21f92, 0xb8e2b7d81704126b, 0x00003bf33a8d64ce,
        0xa996d1514bed7033, 0x61fe12a1c59a23d2, 0x2333e9af3c98966f, 0x356fc4e43aa81552, 0xc713d86924a0a4e4, 0xe88f50d3c68bfd03,
        0x269e70aa2f24799e, 0xc3d2d795fca17231, 0xd05955f9b138de6a, 0x5630e5d6812de337, 0x7d01a0f4a1d672c5, 0x0000884c4d75854b,
        0xdddb37ef31d16a2b, 0x77f05114cde3e5ed, 0x8d9f9ce7198f2f6f, 0x9a855c2e73c57143, 0x197d3dc9dfa0b261, 0x1e4b2e37c29df773,
        0xb25cefa86fd66c3e, 0xac7e7c6760fe62cf, 0x41aea9e85055bec4, 0x652d5d684df2f9c0, 0x31056ca1de76ff33, 0x00011c3b6b96af27,
        0x0b16526578451503, 0xff922f198d861b79, 0x1f2fb4860d3c969e, 0xe6f81b54c78016e2, 0xf2d5169a27b55251, 0x3febccda9be35701,
        0xad11eae12de30732, 0xa5b3d58bb6d226f3, 0x33d727fb084660a6, 0x85ea605994d17472, 0x16d839026b6ab362, 0x00012e1f7bfe75dd,
        0x68222ae0884a68f4, 0x0af14e891e4cef92, 0x0acdd852f7624d63, 0xe1932a3fe4a67cce, 0xa8df616fe858915c, 0xff90f3bb29b8db9e,
        0xfb268c94bdb53250, 0x86cf8969d98c9207, 0x5e1fadd3cb098f7b, 0xea7ddf1a97163198, 0x5606bdaa5e459740, 0x0001b45494defff7,
        0xeb2a4e7527caf7c9, 0x5ce15863d13e7c20, 0xa9cfa4a74a75ff62, 0xe0fed0ef8e39ecf5, 0x7c6b4ada910a54d5, 0x414689cdbcc4a214,
        0x1a5ce4887d275b6e, 0x6ffb4bb8e6942b27, 0x0f3e303ca20733a7, 0x3011aa75105d8c0d, 0xb985e5fb77b08ce9, 0x00002043dfc9eabc,
        0x363c606af836ba1d, 0x45cd942fbf4377c8, 0x9d7fd3da77a7d784, 0xff65a8c93219a015, 0x3157711c0fd42a9c, 0xc5bdbd99fa3767da,
        0x207b20894f25afba, 0x9e290e88786e4cfb, 0x0b96d20e34066285, 0xd0ebee07a83cb8dc, 0xf7e141bf853dc100, 0x0000bd5446c2c2d2,
        0x745224c8a6ba9d46, 0x5cd05d9d4b6e47ac, 0xc27157ddb09e51ec, 0x8d485f4848eb75c1, 0x679056fb9c7e821c, 0x37bfbf4e9eaec8c0,
        0x710a0eabc1d594b8, 0x6e3b90bb9d98e62f, 0x8d398b217d22b6ea, 0xb51ad8ee4ea9f3b8, 0xbce8bb37746f43d5, 0x00019492876d9bd2,
        0xf0601368c82ba553, 0x2c4d51069819abe3, 0x6b51305268955f1e, 0xcfb09af1b55378eb, 0x768b2e8b453d6cc2, 0xc885ed92694e2ca8,
        0x4b1ddcf08beb68a8, 0x49ea55f997ced8c6, 0x12b9654220a12ab6, 0x85ce921398e95968, 0xd903caa9e4bcf425, 0x0000d8d361ae3dc9,
        0x4cbdd1ba3cc3669e, 0x78a30838c10fca9e, 0x9203f97c97f829d0, 0x00bb457aea603b7d, 0x99d734897aac006b, 0x556c2b9d93118959,
        0x0b6f54ac39bc62a2, 0x2da748f2a6722f46, 0xf09d0dd1a9797bca, 0xb5053ec90f44425b, 0x324fd0c7277258b8, 0x0000c0f22f9fa770,
    ]
}

/// Part 6 of the table `mnt4_753_round_constant_table`.
fn mnt4_753_round_constant_table_part6() -> (r: Vec<u64>)
    ensures
        r.len() == 300,
{
    vec![
        0xea9ef22a9c5f49ed, 0x632ada93db134736, 0x9e52638a4c8aa87b, 0x2b6c14d408ba102b, 0xf538ff1e1b916ca6, 0xef4e1bc56f6bb9a4,
        0x3926f4c9a1c51f63, 0x492600689ee77965, 0x92001851a8c9ccbb, 0xbb2b45dcaf030402, 0x541035a7f316c45a, 0x0001095b9ee58841,
        0xdb5a11d201ea5c2e, 0x4cdde14d8ac56ba1, 0x32d3533f42a22b76, 0xa014acca0e37a139, 0xd472eefbee5760a6, 0x60b182ef9759aa87,
        0xa3d863e7c3d8341f, 0x95884765c858ed0c, 0xcc0e2ba2ccb698e6, 0xba3c9c21a813c2b9, 0xc778a4ce530d8a48, 0x000057f8f4040b4a,
        0xf5e167038369556f, 0x91699c75bc97a793, 0xfec0926e29fdb1cf, 0xf6791d6896fb3302, 0xb9818202d8c24d88, 0xe6aa47b4920b0848,
        0x2df4c9d9477f13b9, 0xeb8caa0260f87fb9, 0x225238fd7f38395f, 0x3a3a7323f66e7c50, 0xf8c7d34289a574e3, 0x00003d935304e8fe,
        0x04db504661e165ce, 0x2e91f1721f8872f0, 0x70a410c56aa5db5e, 0x4157a2222d22f58e, 0x8ebfb281a17c6acf, 0xe0b57b7f38621672,
        0xcfb2d7fa4f123c31, 0xdbaea57516a9a2d8, 0x4d9342e158120222, 0xf20ccccae7349549, 0x7e3b2b46d7942702, 0x000113de86997b9d,
        0x409b5e836d13cc9d, 0x400ff2dae0dbb73e, 0xabdaf6422380e177, 0x28eb8a6e1e213ad5, 0xd3d9210c8addca30, 0xfdf2b8aa6764e1ed,
        0x2601d4555b52aaca, 0x02d777aefa9077a3, 0xa68e2b112657e155, 0xe23bdf6961a46c3f, 0xe0310e6a2132298f, 0x000033a8ef6611a1,
        0xcfc657a66f2e4d3e, 0x3699be4fc62847b4, 0x510fe7b1a12a37b7, 0x8282a5fe3dfdeddd, 0xba38d04af51365e3, 0x15b4d84174b0d8cf,
        0xf25e428326aae06f, 0xddc4d9033d1c3bcc, 0xed8b9a41c278edc3, 0x8e15ed40fb146a0d, 0xc53468e84c2a8ad1, 0x0000f6974843e656,
        0x51f66ae76966bef6, 0xf9fe37af86125d41, 0xc99f9b4643537629, 0xb4c3d5f97e7d8a90, 0xa13669f586ff24c5, 0x9fbb257f3d77db8f,
        0x2b7a5b5d0473ecc9, 0xe385ab827b5e2084, 0x399783c2df11472b, 0xe522607036f09c37, 0xf89bdbc0cc4485e5, 0x0000303600188c58,
        0xfdc84fa732784f69, 0x7a625aef622d1c11, 0x553b54332680eeb1, 0xd89af947b6817d8d, 0x42dee0bd2832d7f9, 0x9c011aa006aac63d,
        0x351519c7543e64d4, 0xb7630595f23fb6b4, 0xd87f80eda1a6caaa, 0x03208fe3730a8a3d, 0xd66b5843a9ed0bb6, 0x0000710bfe272ef0,
        0xd8149535735d75ad, 0x1035ec51579f77f9, 0x5045541a24e84def, 0x39a7112e56b28991, 0x8794ee37be79e532, 0x85d4d9cc3f4f8e87,
        0x126a235b51e22bf4, 0x92b69144bf6f9189, 0x7f3e6f787ddc85ef, 0x7ecb4aff733e3a93, 0x3a2bbc4539043129, 0x000071d86bbd7de2,
        0x84b084bfd855f239, 0xcf889411aac91b90, 0x13575fd304f890d0, 0xdc3970e4875983ae, 0x4c273bcec6c74b15, 0x204a9b838ac80e1d,
        0x7dc889ea4911a473, 0x204f3d7c6fbe47a3, 0x2bf20b0c36eff838, 0x110090a5c7aab6c1, 0x7c71927c2d897c58, 0x00011d7818cc2b4c,
        0x25ada52ce369fe31, 0x4e140dfafa90c1f5, 0x1f87dd0add06e32b, 0xa79cf4a11fe4b33a, 0x4b59744d87fdf979, 0x17fcac3d30c27b50,
        0xef92a9cba52ee069, 0x9196f81610063375, 0x9f51df6b70b9b3c7, 0x8688a7357c44fd13, 0xf491f8f69fc4aeb6, 0x000074f763c17516,
        0x0fae87774f7363d3, 0x0ce8ccd214ebef41, 0x5787b01f0ab0789a, 0x5e8978e62394e9ca, 0xc35430e37275b1d5, 0xaab462ff210feaf0,
        0xa66f738b6f2ff717, 0x3d41a899b6070195, 0xe5bda137ee956a2e, 0x0106561ff8ff0996, 0xf01dea7cb8c22c29, 0x000073b2a63df2ea,
        0x4693b14b3416a2a6, 0x5b511255c1d11ef0, 0x3cd2e12fe578d58a, 0x16ede3d17fb5c5dc, 0x051835525270623f, 0xa195e436dfc51fae,
        0x2438d1139ddfd9b3, 0x2d6c2c3a36153376, 0x51bbe84575db775f, 0x9a6b02915e272fbe, 0x43307e3b037a6ebb, 0x0000f440e0f811da,
        0x2a805d9642a5154e, 0x97d93de82bb4e0ec, 0x9701fbbdb38c4ae9, 0x5a82667927185b21, 0xfc922d86b9769a66, 0x67ffbef815f5640d,
        0xc45bbc2e1cfc5ec1, 0x13163c37a7e79fa5, 0x8f561168600c25da, 0x3393d3da7383f2c0, 0xe24800de96d7d043, 0x0000d66f9b940706,
        0xbe48ef3a7af9892c, 0x9e7e050529f81774, 0x674372b5d4281759, 0xf344c181fab79d70, 0xceb2b41c51ac5fcb, 0x993cd51657ec2c1f,
        0xba21f0b141c9bad9, 0xff81513abdcab856, 0x1a4a808748f76f6a, 0x34ee707fc7a0023f, 0xf33482ac4beed32b, 0x00008dea12d2242d,
        0x1b711376e8683b37, 0x2d1ac483275032c8, 0x6ee56bab5627a6e0, 0x7c96072cb1f7e5bd, 0xfd02a38084354f1d, 0x77eeff82e1888ed7,
        0xa660d73a59ab38a8, 0xb951eb133868b41c, 0x18412e19ea39d2c4, 0xa42a0bc5ef57e502, 0xd3c992898fbc2dab, 0x0000954aa18c31c7,
        0x88ff33765ad9552a, 0x9652a411e2945a19, 0x96376668f8e95ed3, 0x3e11b3581f0d4f8c, 0xc47bc4d0a1138e26, 0x30e9912c17bb6c84,
        0x2a3645260bdfdb77, 0x0c632a4dcf371c00, 0x7a91a3bdf228ac1b, 0xc206d7604966a3b7, 0x50f926d59d09fe8a, 0x0001b8ef7395d57b,
        0xf513bd25980078b0, 0x7338b18a3c7af7df, 0x84a87053fcc34466, 0x8bc2c2b6dc934935, 0xdeba0aa909fb0490, 0xb5bdf89158a50ed4,
        0xe310ab947fe86dfb, 0x380cbd658617ffd4, 0xb3898ec8759a7018, 0x01d24ad9f271d9a0, 0x7ad61d5e7c6255b1, 0x00003c58bfe6901c,
        0x2361d51fa1e8568a, 0x0daf9e522d69def4, 0x8e80b3972ca414e6, 0x324d355e5017d787, 0x8eb110eade7c39c0, 0xe0ddbf2931adb262,
        0x2ef9b664b5abe6f5, 0xe19f9e33e3dbd604, 0xe7ae263b0abc00f9, 0xe196625411461cbc, 0x15fadeb0d3ea89aa, 0x000100b6b01a9942,
        0x0dbde5f9a28b7c52, 0x6aba0f2f345a0e01, 0x38aab8f1fc7bbea7, 0x3f71adc937f202ac, 0xcd4ce80ad424b82a, 0x584e6d74f3d93b87,
        0x726397a3e9be0613, 0x40039ef6e2eaa922, 0x861030d785dd910b, 0xa04c2b7a8d74634b, 0x84bdae32f1191044, 0x0000f98a51f12b91,
        0xf78921e22e38e895, 0xfd6be3367e7a016f, 0xcc453732313b30a0, 0xb4d18448a02e4656, 0xd7ce268c996d23f3, 0x258c58d2570b97b8,
        0x212eb18c986c0341, 0x98dbf843035ce1c6, 0x6d38b8a7bf99fa0e, 0x32cb11763394f0c5, 0x4316c3406c9372be, 0x0000f9e1e7166b98,
        0x803c2511475df6b6, 0x6b7200f78eb28ac0, 0x1f0c8e7f2fe83c0e, 0x3c392bac1a15a067, 0x6eeb5681db87c4ff, 0x68f2dc4ec55bdecf,
        0xbc49ce4545bd2fef, 0x7f62587b16f4320c, 0x72b8caea539b8e51, 0x8306b70d92a2be5b, 0x0f97f1e71450ed63, 0x000097fa483303f5,
        0x469c714569abd8c1, 0x1913ee46ba10dacb, 0xb2b68a080490146c, 0x9ed862a021fa6e64, 0xee0ee686676bee6f, 0x6f56a9b13e06782d,
        0x124f1b0ee2d8eee0, 0x05199e6e3f99d241, 0x365f582a8c10523e, 0x51bc0ec52af86dff, 0x56d1cda869bb5fe7, 0x00008b69088dc596,
        0x46ec6132a30dafa5, 0x0983343090542e2e, 0xefa7d80d8668cc7b, 0xb6f8dde674cdbecc, 0x1aa644e0757df0fc, 0xe64d5671a56ba159,
        0x49a1ce1e235d5282, 0xe68dae0702263899, 0x22f7670721563541, 0x53742894e69f6b60, 0x9b338375830294b3, 0x00010334c3936ba5,
        0x2f2f7ec6bb0fc9a2, 0xb963ce5d220e1dea, 0xa4347ed0307f0b51, 0x7e6032cbd33c4ed5, 0xfa4fecce04f797c8, 0xa8d3feca701c748d,
        0xfc51b39479e8d669, 0x3aaf1a506e52bb60, 0xa587566bb8e57f77, 0xadb5e7236d52c503, 0x6816aea2858ddba3, 0x000147119fe572c0,
    ]
}

/// Part 7 of the table `mnt4_753_round_constant_table`.
fn mnt4_753_round_constant_table_part7() -> (r: Vec<u64>)
    ensures
        r.len() == 240,
{
    vec![
        0xa03ccaffdef21b73, 0xa8de06d1ac5f8dae, 0x05d78ee430a80a73, 0xa4b3c55d738db795, 0x174d591cf11f254c, 0xb91c1a7751d23bc3,
        0x1a3e9e7fc9efd59f, 0xcc70f247f770723f, 0xc1a9e07b49129302, 0x495ceb5aa35e2ea0, 0xeec87f4929bd06d1, 0x0000c7e7a66f0946,
        0x06f658d29f114c84, 0x6a7d8bce8c261033, 0x75a219467609937d, 0xc2675956057c46e9, 0x9b7c42e10ae5cc17, 0xb0e47fba954766fa,
        0x8b588703383b9e36, 0xf63ec4f8d709821c, 0x6c928cd59669f8ae, 0xc7ba3aefc84fe93d, 0x62c91d96d0dc30bf, 0x0001166cfada0bc5,
        0x45e745565feb26c5, 0xe38676508c0a9fcb, 0x6c5b0231a19e4ffc, 0x0a2b7eace69cd2c3, 0xf197e7f9f954b6b0, 0x0f0badaf863bca91,
        0xe931a5650ec856c0, 0x849520d571b9d165, 0xc1f9d39da8ad17a2, 0xf1c88a051d149a33, 0xa2db62eeca301b73, 0x00007a49bcf400d2,
        0x9495b759477f844b, 0x52a6298ee8ea40bb, 0x4f738381d39abb7a, 0x00ab47dbd3517f94, 0xfcb4d90b1744444c, 0x468d611eb8156cca,
        0x0d46a0b16541af40, 0x6e234e1d2880c81f, 0x0284bd935463eb2a, 0xdda31d834b0faecf, 0x2c2d0e367c66b425, 0x00015303fc10c637,
        0xd432a5ea360d24ad, 0xa71d96fdeda3a280, 0xdecbdcd6d4a52ff7, 0xb25602b4b2460cc2, 0xe5961a658fde3131, 0xab218ca5da920d06,
        0xb557f03877638ea2, 0xbc752c852c90b75d, 0x647441f7a35ce26d, 0xb586f36e63cbdc9c, 0x6cf4ebd2ead01bbf, 0x00011de308e87b11,
        0x6dec85f387a6dbe9, 0xddd676cbb585d8a1, 0xa4871186679dafa0, 0x16b0cb7518ee3d6d, 0xee2a99e1f91481c3, 0x246ce0bae1fed1fb,
        0x8d7ed08e32014121, 0xface20304e96506d, 0x84c34fc904cee85c, 0x908b7b469f2455b8, 0xa2bc400e8e88c155, 0x000181f4a6adb995,
        0xa09194b8ac4bd549, 0xc4e7a8e0d56a7918, 0x180467fd7ca3f7be, 0xcc2f90ffcb3d68ce, 0xf616dbdcdf64e094, 0x7ceaa1f24e4b3854,
        0x38f05f43b4634169, 0xfe4a4cfd85e4e271, 0x0ce8e489a6a86b08, 0x083adcfd5d49280a, 0x6317e9c5354e119a, 0x00003ceed536ac9b,
        0xdaec5a07c4345844, 0x35feb0a5cf584856, 0xbf4bb5e99bb17924, 0x0e722117890905c4, 0x6f5a0c45344849e2, 0x2321bbb2a3d64620,
        0x6fcadd3d2de6fc36, 0x8874c1ea7dec82cc, 0x1d246c963533e385, 0x6ad8c8fd30c68052, 0xdb80efb3e1dd0461, 0x0001156aa44832fd,
        0xb4c3defd234283ef, 0xf4fee42263d9d636, 0xddccc668d42f20a0, 0x66543bec3aaabcc0, 0xe40d4cfc2912cc3e, 0x7f2eb8e1f0457a75,
        0x1436b0b2df453bd6, 0xc7654b56aec385de, 0xdc1f7c1f2e0280c7, 0x342c1d9bc62e0d29, 0xf7c679fdf05a47dd, 0x0000341a1a3b2302,
        0x583684a0f902f25c, 0x0166f8ea08fc3686, 0xc7eedc1df532926c, 0x72578741f52a76b0, 0x3061297c67eaf250, 0x494b00b48a8c5020,
        0xd2c75bbff277ee69, 0x5a310d8c9405273c, 0x12a98a241878d8fc, 0xbe3666f294f4f913, 0xb3aaff312c9a3f40, 0x0000f175f0000a74,
        0xe2f140cc1b6bf087, 0x1d21b2a37a49bc9b, 0x189dc13856a53c92, 0x7a179122c88b4d0d, 0x90258b2409935977, 0xeecc1fa5129c09fb,
        0x86db07f2c20413cd, 0x29195f5ea51631b4, 0x4d0faa6515cbc02e, 0x3c188db75cfb12c5, 0x32780c07a1bc1dd5, 0x000012d06d4de68b,
        0x8dd45f72f8ee9565, 0x00d704d1280680f9, 0xc5ecb67c3fbe5838, 0x1a03f22d43911d49, 0x6cf502df40ed0032, 0xb882c88d1993ceeb,
        0x817cc84615d79d7e, 0xbb7299fe6a3b1fdf, 0x3166d236dfe64054, 0x8daf2f41997e0a00, 0xb62d0fafee6d9b9f, 0x0000c081a65f1dbe,
        0x093be1a72247e780, 0x88c52bbcfe8cb500, 0xd8b4f13f7e22ea85, 0xfb8df0d03e166102, 0xeeb1fb01aee1d0d3, 0x00a9b60286c48638,
        0xf6caf175a03d34ee, 0xe1a00cee716ba900, 0x9f611379cf2429de, 0x82900756a83e61d8, 0xfe26af95092e473b, 0x00003c815e58c413,
        0x9be1d7c0d57f7907, 0x45cda6ce019a4590, 0xd61d824d6e6eae59, 0xcae37ed3f8ff1853, 0xe5bd8410da139fe6, 0x2581bc9ddbd8e465,
        0x2160eaa52065419a, 0x77f514f84442a369, 0x0d0b25713aa422b3, 0x971ce460f52df622, 0x6e15d49becda7eeb, 0x00009477fe4edf4e,
        0xf4ff0cf6e1075d6f, 0x4b5e4b352f883273, 0xa7119b0bdc33cda0, 0x9fb1f6a8eb03c130, 0xe9db018ff036eb73, 0xb2491702d51b7c60,
        0xa7537f51cb687f06, 0x6fe8b4a8c964d9ba, 0xf7c41ce7258e8ee1, 0xfc1a2ad3aeb47019, 0x5e23ae92112c58ff, 0x0001003522aa24a3,
        0x721468ddd2c6791d, 0x9bdbe1ea2dca2eae, 0x16d21ad1eb841d2c, 0xd4b7565e3537686f, 0xca5e944af0a92a8d, 0x2ddd09448d78dd92,
        0xce2ccb3c1d78d597, 0x99a024374d5c138a, 0xfd20aff665cce82b, 0x97174463314cb552, 0x64f8e12774bdad55, 0x000025211dbcdc33,
        0xd0dfa5a0bf66b106, 0x82cf1da11c9902a3, 0x92f1deb9ce85c217, 0xbafde692a6beed7a, 0xb1477d182b4faf7c, 0x1b36f8d87bb3d75d,
        0xc84b3da1e34b3e56, 0x6b7f83293ff4428d, 0x963d31253ffe4b85, 0x156cf9575430296a, 0x07a8a5a1916db819, 0x0000f28f1980e5d9,
        0x7e14a3dabf0f6ca3, 0x608955136f2e9b42, 0xa28a1d47193fd06a, 0x294595b27dd8a73a, 0x68eac96797ae1754, 0x15c05bf1fe363790,
        0x500675b7a7e2cb07, 0x55577f96d7ac78eb, 0x63f908496c876d98, 0x27ddbf822d967412, 0x4108ed38193db7d3, 0x00007555037f3e94,
        0xa3a5291d2cde3c3b, 0xa4a23dcb49d0f244, 0xc75a2ca7303d767e, 0x9260e90862dc905e, 0x517739d68a281f10, 0x5462ff5ea5cf1ea5,
        0x757279f0b036c3a6, 0x2882c358598ba329, 0x3ef004582068cbda, 0xa15efbaff071a75e, 0x8a96a8d037816bd1, 0x00019bc67e85514f,
        0xf8ebfd779a5ea3ba, 0x92e119e00034cb60, 0xc998bed60ae14d21, 0x769c00646dbdd1a2, 0xf093374f9684685c, 0x1f7e1e642fa18d69,
        0xd6469dd5e6712e44, 0x7dcf28622c76003c, 0xc47729bd93e2d704, 0x2a5c11358ad53c52, 0x07f581dff7a02292, 0x0000f497364464bc,
    ]
}

/// Round-constant limbs for the MNT4-753 scalar field bundle.
fn mnt4_753_round_constant_table() -> (r: Vec<u64>)
    ensures
        r.len() == 2340,
{
    let mut r = mnt4_753_round_constant_table_part0();
    let mut p1 = mnt4_753_round_constant_table_part1();
    r.append(&mut p1);
    let mut p2 = mnt4_753_round_constant_table_part2();
    r.append(&mut p2);
    let mut p3 = mnt4_753_round_constant_table_part3();
    r.append(&mut p3);
    let mut p4 = mnt4_753_round_constant_table_part4();
    r.append(&mut p4);
    let mut p5 = mnt4_753_round_constant_table_part5();
    r.append(&mut p5);
    let mut p6 = mnt4_753_round_constant_table_part6();
    r.append(&mut p6);
    let mut p7 = mnt4_753_round_constant_table_part7();
    r.append(&mut p7);
    r
}

/// MDS-matrix limbs for the MNT4-753 scalar field bundle.
fn mnt4_753_mds_table() -> (r: Vec<u64>)
    ensures
        r.len() == 108,
{
    vec![
        0x1405f8b500000001, 0x0bb3adac0c80fb73, 0xdf02ce303266ac79, 0x2e4cc791c3adc883, 0x65896edcedb41e92, 0xf5237ced6d1487af,
        0xe1741d7ae77bf94a, 0xd33160eb2080be0a, 0xb22cba6123acad28, 0xc66145d9e2d9598a, 0x401ba68258b57157, 0x00016a38247569a7,
        0x8a30e311e0000001, 0xc185d4e88d065b42, 0x5da2ec1cdf2af3a8, 0x9ae54fe2812a5b89, 0xb46f28d0ccf0f52d, 0x6a04f77751a00d56,
        0x002e496006767903, 0x31536f9f9730c5f6, 0x2443eccfda7e89b5, 0x194ffe184c4d129b, 0xe2c7781d1c67ab66, 0x0001794fd0a4f8b8,
        0xba0665e680000001, 0xb11bf0ef31f7e8d6, 0x4a5e6f33a3b72681, 0x562db140bf5ec48d, 0x115c647efeaeb30a, 0x06a605d9d04cda85,
        0xa86a1f95f804d43e, 0xe24730fbebf7a70b, 0x2c9da31eef5d94f4, 0xe6d5ef69730d7239, 0x3266c4b03a794294, 0x0001841794c6f133,
        0x8a30e311e0000001, 0xc185d4e88d065b42, 0x5da2ec1cdf2af3a8, 0x9ae54fe2812a5b89, 0xb46f28d0ccf0f52d, 0x6a04f77751a00d56,
        0x002e496006767903, 0x31536f9f9730c5f6, 0x2443eccfda7e89b5, 0x194ffe184c4d129b, 0xe2c7781d1c67ab66, 0x0001794fd0a4f8b8,
        0xba0665e680000001, 0xb11bf0ef31f7e8d6, 0x4a5e6f33a3b72681, 0x562db140bf5ec48d, 0x115c647efeaeb30a, 0x06a605d9d04cda85,
        0xa86a1f95f804d43e, 0xe24730fbebf7a70b, 0x2c9da31eef5d94f4, 0xe6d5ef69730d7239, 0x3266c4b03a794294, 0x0001841794c6f133,
        0xdde68805f8000001, 0x64cc85f42dad1305, 0x3beb1184b7204ca4, 0xe2a3fa476e061350, 0xd70e5141a3fd016f, 0xfc1ed0a3af4e7467,
        0xe697003e6d2f98a9, 0xa6fe02012b8ccfdb, 0xb2e0ebda3f04dd64, 0x00fa6466501db9ef, 0xee1e3e1e910673f8, 0x00018c2d67e06b8e,
        0xba0665e680000001, 0xb11bf0ef31f7e8d6, 0x4a5e6f33a3b72681, 0x562db140bf5ec48d, 0x115c647efeaeb30a, 0x06a605d9d04cda85,
        0xa86a1f95f804d43e, 0xe24730fbebf7a70b, 0x2c9da31eef5d94f4, 0xe6d5ef69730d7239, 0x3266c4b03a794294, 0x0001841794c6f133,
        0xdde68805f8000001, 0x64cc85f42dad1305, 0x3beb1184b7204ca4, 0xe2a3fa476e061350, 0xd70e5141a3fd016f, 0xfc1ed0a3af4e7467,
        0xe697003e6d2f98a9, 0xa6fe02012b8ccfdb, 0xb2e0ebda3f04dd64, 0x00fa6466501db9ef, 0xee1e3e1e910673f8, 0x00018c2d67e06b8e,
        0xf9cdbf0200000001, 0x9b396ba2b88f5046, 0x86031dfca9c76a4d, 0x4fe38869124f5092, 0x8d435ebc96565adb, 0xd77cc3b27933416d,
        0x88b9e7dde4c2a336, 0x238c32cc5d00d328, 0x8d1540ddb5dc4e9f, 0x4e33312afc0df1b6, 0xf1e5d5746290b6d3, 0x0001927744f43c80,
    ]
}

/// Part 0 of the table `mnt6_753_round_constant_table`.
fn mnt6_753_round_constant_table_part0() -> (r: Vec<u64>)
    ensures
        r.len() == 300,
{
    vec![
        0x24c98145933addd1, 0x8af943854a119dab, 0xce3befc1d1e9149d, 0x8f3fee18439f35a6, 0xecba7d4281591ab6, 0xa7ffaf3d729abaaf,
        0x535ea1d077554641, 0x3ee55637115a6d03, 0xb314d45b6cea3ff6, 0x1f62cc1336f39fbf, 0x54c1ef9ffe4554de, 0x00010b2e9afa9696,
        0xfd9458ab9ac891e4, 0xa0168bf7758463df, 0x63683eca7b8cc92f, 0xf1bd97747b171595, 0x729bd8ec6c864f56, 0x2b9ec261fb028a07,
        0x35f7d31ac491172a, 0x67d50226f879f903, 0xf429b711a12aaf6f, 0x0e2f07d391ce3641, 0x76f3ab7ea84cc345, 0x000187be7e9db8ef,
        0x5e3b211b5c310c78, 0x3db2729a05aff916, 0x46d4b8ab02b5dfda, 0x90acc7b716482183, 0x5a7ecd62d10bd34d, 0xd970591583718e0b,
        0x628cd3ecfcc05288, 0x3a35aabeb5d3020c, 0xc85164b5c0c32b20, 0xa07ce83a0d3941aa, 0xf02232683e79045c, 0x0000fae34bed7391,
        0x12b98e2157edc6ae, 0xf7d84558e508bee2, 0xf43497e74c430927, 0x39b5e2d6de9c908c, 0x9510310af6cf4d35, 0x045afb4aec2cc7a4,
        0xe13d766e2db5b183, 0xf77e75566f384d20, 0xeaf8a0e589bcd506, 0x9f9b9099419e8a8b, 0x96e8af8fb66ec939, 0x00007d01ad5c5d4b,
        0x61594aad6990c536, 0xda8f627a4683be5b, 0x27031d2a37d58e44, 0x5c02ad0db72cbe78, 0x03e4716698253583, 0x26399cd998849360,
        0x32601c1282b50d20, 0x059b0c22382f6926, 0x44f22aa4bad9c102, 0x0a432e71617cd3d0, 0xdde7a18362082b8a, 0x0001782339bf2da3,
        0x675146e0273ceef3, 0x057bbc9207c886a5, 0xdcb02e177ab28d36, 0x5746276234f10d27, 0xe8825bc889e2550b, 0xfdd9b691c395120e,
        0xd1c894fa708e05ea, 0x41184c911d5f1443, 0xbaa2ec1944ba3d97, 0x3e6468e4b3eb4572, 0x4d056dc44930c800, 0x00009a074576d903,
        0xd42085743d4ed12a, 0xde59320098a90926, 0xf8a79ed7fb908733, 0xfe6a63ed58f36893, 0x075396960f618d53, 0xfe48f7bfd3c00a3a,
        0xcaf5b54aef9830c9, 0x18dbefd29cef0525, 0x3b6928f39983a90e, 0xc790ed35967ea2f7, 0xf9da5744589bdbc1, 0x0000a3ecce71dccb,
        0x63de3a7e46af6d32, 0x54566aa8b7bffda4, 0x0eae3538928ced22, 0xf5bcb0efe34c1d8d, 0xd75e4d57130b586c, 0x0da6a30de75817ab,
        0x6ed3fdb65fcec743, 0xa2954a9abeb9bbf3, 0xe349fcf6a631a6ca, 0x0de19b5fb8113589, 0x3e9d3ea87906082d, 0x00001dfe8e90c15b,
        0x92f2f3f7f00808e0, 0xd366c6b4ec73f97b, 0x6fa6fc34eabd6eda, 0xa2fcea8b40ba1fe2, 0x7f37dec4bcb92659, 0x798dda8c22ebaff0,
        0x6d80ee7ee7cdf473, 0xdef999f736713207, 0x01086b2a818d762f, 0x0931624c4a277a01, 0x96952dee6e8ab4dc, 0x00006cf948081f48,
        0x4a56bda63deb157b, 0xfa93ffed45253cba, 0x97dbedc7e6e1bf3e, 0x34d34c9c0712da1c, 0xbb4f99f0c3ae5e4c, 0x0ce7084d293a562d,
        0x4f8642f644f5aae0, 0xdb749e77a1f5e20e, 0x225f31e64fd1382e, 0x1bc093fcb7070919, 0x628a8c9c6de1ad52, 0x000075c186235893,
        0x156426265540c9f9, 0x866efda5e11bde5c, 0x714eb9b8f9c42354, 0xf9775630a3bcf558, 0xd85df527166a4163, 0x8cb1453bd84bba92,
        0x43f1ccbcb610cfcc, 0xd4996066134da7d5, 0xdb80119c4fd95b13, 0x76012c25599b5b6e, 0x2254ef976de26a5a, 0x0001385f0cb803ae,
        0xb9a861eaf1475e0b, 0x25d41ae8fe05bff6, 0xeddce53e12d1b3d9, 0x5909a1cb472f38bd, 0xc9d7dd54833e9ab3, 0xee42c3b0c2f071c9,
        0x469127d83f503a97, 0xa604f25b9d2845e4, 0x075541cbc228bd33, 0xac59b08236dc70df, 0x1c776125e398ea47, 0x00001a872663aaed,
        0x230246e30531b49e, 0xa335bce3996c5532, 0xdb856dbc210efcac, 0x09e6966e75328c77, 0xeee36a8fba1613dc, 0xa5ca44163954aa52,
        0x6759ce007311ae31, 0x97646e4d3421c6f7, 0x978ab7ab2fd04511, 0xc988c57c92d3ecfc, 0x117c11f63da651b3, 0x0001523338edf8e2,
        0x6bbc18d35622e74a, 0x247601e46894cd55, 0x05e3f41e6e1db434, 0x32f4fb609d5ed9ee, 0xef46a4afa1aadb5d, 0xb0c6cb88472674f1,
        0x4883db77eda7ec75, 0x9fa0da1218498d5f, 0xf4f9b5b9dd75491c, 0xd061f96e236b721a, 0x23095a64184ac3d3, 0x0000b4e6cfa4e6b7,
        0x83427129cce4d8e1, 0x5857cae06abe3a5c, 0x2b7c81e8c3fccb6f, 0xe7c44a9c3313fdd4, 0xa38f7e922355052e, 0x794a5f1f848dce76,
        0x06b2f2aeaa486c13, 0x02629fb100a85d24, 0x56bc3d968cec013a, 0xfe5903a5b30f164b, 0x5132cebbb5a5f425, 0x0001b062177a9529,
        0xb09a12a2e706af26, 0x32bfa192c3106aa9, 0x091a08c48e747975, 0x4632f6f4b0369846, 0x3497fc5c81a1f8ec, 0x6195680cc4d9696a,
        0x29de07f9570f5762, 0x4f91329089f3513a, 0x7bc6e6a91a7fa0a8, 0xf9f62affdb0a0e02, 0xb8115e5c3780f907, 0x000156b0b2e7eca5,
        0x2d7eca9359cf6541, 0x3ebd51f6373b0525, 0x8c40ff323a905165, 0x91d9f7dac15f276c, 0x6f9d4895914feabb, 0x78ac5b7fdcd0e9be,
        0xc296bf0eea54eaea, 0x67f970848b70d67f, 0x1854a6902e883e8d, 0xf1ab4dbba7b01ad5, 0x10b6675a6ba39fff, 0x000159db35d7faa8,
        0xa79c3c316e407088, 0xde90a1d464754f06, 0x12e8d4594242405b, 0x80641e52cf235ac3, 0x38b546925ab36e05, 0xda2991a2f6cc6173,
        0xdef18e016a21c0a1, 0x70b8176f2d59f7c2, 0xb302654612cfef3c, 0x24000604dffaa707, 0x8d2e4d17d4f1b51f, 0x0001414db9f163bf,
        0x2f6847b31c7aea11, 0xd5f472aa7d0a6154, 0x319dfd591bc2e3df, 0xf2740cc352f8887f, 0xddf864661c52ae03, 0x5c5d6e8d6c808250,
        0x03c10cf9a07f9473, 0x8467ae731a8acea9, 0x99c5336d526c06ff, 0xba99ffb7822c8a1f, 0xebce7e167f7454f0, 0x00013770b03fdef0,
        0x3cee52afdd3a84a8, 0x9cca083727548e69, 0xf88804b0e5e5d4c3, 0x0ad2e198d271c385, 0xfbdb5bb6333e1c52, 0xe31d41f30d7d12e4,
        0xd0e8d69c66850536, 0x27c36bb6bbe6c638, 0x72d7c947a94b99fd, 0xc184189a13657f38, 0xd5937f876fd2e70e, 0x00017f2600e8d260,
        0xc2ed0c2fe314cc78, 0x06e3756c79e793e9, 0x94d54454ea13c7df, 0x997f909b6a6b3e6c, 0xaeb791fb77fbed01, 0x5fb0d5fce404c912,
        0x842c857bedd5127b, 0x3c783978e35f993c, 0x8fbc0d7868000011, 0x91378f0ddd0be17f, 0x4c7020665bf27c9a, 0x0001a945beb884ef,
        0x53a7b3cf4b684ef0, 0xadbc21b05e2aafcc, 0x0fcd04fefc454339, 0xf490775f69a953d8, 0xf558dd31f71ed195, 0x0d7aefec00d5a524,
        0xf687c8ba5243f4d8, 0x906db7755e4ee5e1, 0x407a2b5b9bc3659c, 0x74392c49925e2666, 0x8c6fd93b8520d04f, 0x0000c13c834cf4d3,
        0x9c6d7414a2d76fc9, 0x84a87518592bd7e2, 0x90a47c610048dcae, 0xaedec5558a357d0a, 0x535e5928ab3e647c, 0xd73c3885f26cec91,
        0x5c93d7f523a00a65, 0x54ef58885b5e2c6f, 0xde7b8697d9f4a47d, 0xea2eb851c2df56ae, 0x57fe6c19c44e8777, 0x0000ba8a84722b6f,
        0x318ca3710b320017, 0xac994559ccc77f17, 0x839bcc1df06f0b81, 0x466610c3b265e15d, 0x2e27ad23e32b5ef6, 0xa7ec7175a53b53c4,
        0x7b5e07de1a65a482, 0xdac6ea83cae5eb1b, 0xdc8645f3eb656560, 0x708fbd52d82bfe63, 0xef07e81c69acf1f0, 0x000123da4246b346,
        0x97e9342b9f0644af, 0x7761c6def3662143, 0x73e941ea0c963723, 0x099f904b2fbe665f, 0x8b8667d44cbe5f6e, 0x0afa72ade5599508,
        0x5ed510e50d0b85ea, 0xeaf2cbab9c5192fd, 0x61446bbf9e2b76ae, 0x0a5519d157b40d0a, 0xb364cd3ebf99b4cc, 0x0001a60ec30a0d15,
    ]
}

/// Part 1 of the table `mnt6_753_round_constant_table`.
fn mnt6_753_round_constant_table_part1() -> (r: Vec<u64>)
    ensures
        r.len() == 300,
{
    vec![
        0x6c9b8dfa8be2c23d, 0x375a2ce3245852c5, 0xaa848afeec85f7c7, 0x5d69b15bf8d3451f, 0xd107ad7afd23cb24, 0xe4a8722ae73b6bdc,
        0x5d60a03347736c82, 0x1e42c64ef6cb86c5, 0x894126d13b322d18, 0x8ef089ec38acafc8, 0x77d31d976e87f722, 0x00008c5ded33b6a2,
        0xe30c79dfddf5e2e9, 0xd627debfabee1cdf, 0x7079bcddd09f27c1, 0xd3e8d568cbf2371d, 0x4489456798b5f65b, 0x3b7f23d590abcf4f,
        0x9b0db14f84f36bda, 0x271f025e37bc6196, 0x121a97c4643f64f2, 0x441f4420ca5c6491, 0x30b7d07812e64ceb, 0x0000e0a33adbf5ff,
        0xa9aea9fbb16a73ae, 0xfc486bf01f666d04, 0xea5c5109e05e9e61, 0x803435873ab26255, 0xf8d1efb5c0407dac, 0x74e02b39d0fcda3e,
        0x3e8c923b49f62746, 0x05ef4b4b73778fbe, 0xf6dd622254cd5538, 0x789e6a8e78f650d2, 0x1f811c3f14bddc64, 0x000197fd9cbe19ec,
        0x2e90599ef5cfc916, 0xcd800a4028436e48, 0x112c1d188dae2660, 0x5382e273e2f2caea, 0x8f2bfd6331d82d24, 0xb5b027c15c669f37,
        0x5d9867a394de5f4a, 0xba5989774c25693c, 0x200149706e63e018, 0xde45693053c74f42, 0x80d47c138b4c40a8, 0x000167120e260f49,
        0x6a22c0259082a60b, 0x0cbc7b48f1f0983d, 0x4a89980914dcbb0f, 0xc377423e1ff3298b, 0xa1f528d4b706dc65, 0x1cea2869f15e26b2,
        0x8bb884428577b080, 0xf91859fe6d725c9b, 0xb6500c45ca56a757, 0x1272a97dbf5e0866, 0xbe6589cd72ff1a1e, 0x000152fb5f6ffae7,
        0xe57c6d14cff9a0fb, 0x1d90e5b4fd9a98d5, 0x0f6334dba895de8a, 0x6ef59d930b435bbc, 0x3f8c8c61c5ee57cd, 0x52880bb819341493,
        0x9b0028830261770b, 0x33265941d6d3db86, 0xd640f0df24b8296e, 0xfa84c7f501ea2aac, 0x116a0ea5fa853d6f, 0x000041016aafaba8,
        0x06f25a044df97fd8, 0x28316f0819332a6f, 0x16241b36d7754ad7, 0xf74b976b576ea4a0, 0xb55d4412a1e5d585, 0x08a7134c97a0c4d9,
        0x8ca44606fbd6343c, 0xb1921a2728d50a16, 0xdbab3f48e63383ac, 0x6177f6b35fb059fd, 0xaf52e95ee7421af6, 0x000141e9438e794c,
        0xc6d0a8ba570d296f, 0x6e0bfa9275140d69, 0xa9c77dba8fa2a27d, 0x091dfe48d9ab364e, 0x8d7950c07906b12f, 0x6de5f4f16e58e72b,
        0xd025e1cc5453479e, 0xdf558e33c1be5eca, 0x7b147c90a87e9d04, 0xc67801502eeab332, 0xa3955ac477e51dd0, 0x0000d9f934ebbc7d,
        0x0f1d2993fbf9e856, 0xc7a99acb266cb1e8, 0x10982b5aeb2eb265, 0xdd389e6f63896b0b, 0xac9c79cc24c4c1ef, 0xa8a5dc97d921268a,
        0x743c3b84420272d7, 0x00580dc720dd1610, 0x46b7e56dc97cbfe1, 0xb226944aa2878ada, 0x1f481b5ea89b613d, 0x0000f0e24815e318,
        0xdfc9bf675501d9d1, 0x21a6aa7c82f0299f, 0x20988a63051179c6, 0xc326484c3ae372fe, 0x3e771fccd4d915a9, 0xb9f23f50e352b51b,
        0x2cf9fdf7d2383fb5, 0x00324e9f77e67b76, 0x36b99f8f390ad597, 0xba21597e7e7de088, 0x7f53096cb46564e8, 0x0001625f5532ad03,
        0x1640b9ba42ab566a, 0x5ea5d34e415ecffe, 0x27eef7bd043ff8eb, 0xb661c9597586c491, 0xddf3555094a8394c, 0x4be6be37671da28b,
        0x44367a86cf65ad9e, 0xa640337569a52a88, 0x85e294032af9ff9a, 0x26f8d48e4afa432a, 0x9eaf15271f879332, 0x00007f3087e9325b,
        0x369db6e17f55c1bb, 0xd8abc142071141e2, 0x7d5896e8c6f4ba5b, 0xa1628b97abd83d4b, 0x81d050a4362e653c, 0x1eb4e21317d03879,
        0xbc28efb16f133dd4, 0xca305b9706ca72c2, 0xab2e714e5456bf30, 0xb4b1c4980c3b075b, 0x07cf752ac31575f5, 0x00014aa632843968,
        0x6c67f73267df0fb3, 0x98818a1e8a975326, 0xba26be2964c5fd8b, 0x85fd82357ff5a243, 0xb23e50ddf5ca4432, 0x5f8efb2fc0e0690f,
        0x99abe5feef6ada98, 0x69b6781711c54f67, 0xb401258bd281d3c1, 0x290b609c74c4a283, 0x4c1339e3d35b7af0, 0x0000889cff923db1,
        0xb447393e417d20b3, 0xf37eda9240a624e9, 0xe0784bc2dacf0e36, 0xa85d02d83b6783c9, 0x74bc2ed0bd993f3d, 0xf6cc4fe78a3dbb5e,
        0xe5f7697f425eda57, 0xf4d048d7ee0c59a0, 0xe4a9f93d078342a5, 0x50bf654361e68a34, 0xd9888eae26261ad6, 0x0000208db358422d,
        0x306d285f6c6871b3, 0xaf1d38990c7956b4, 0x36bd16707cb36ab1, 0x38bf2a8f5198191c, 0x2a202337de62a401, 0x0daa343a1a2503d9,
        0x22801377733daeaa, 0x8579e01608fbf6fb, 0xbc04f13d333c9173, 0xf24ec1baefa4712e, 0xaf38d1c141de3629, 0x00017e77d7cf0c5c,
        0x05547a204324e493, 0x8b41129ae6a0a8c3, 0xff30fd06ac4b82ca, 0x7fe04930006780ea, 0x0d0835c836caa01b, 0x6f620eece65588b4,
        0x3369be96aeb849eb, 0x908cd5201037781e, 0xe7a5fd00d1d8e5b0, 0x0c5a7d33008a6c90, 0xe41b69aa2a6e5bc5, 0x000035230726bfd7,
        0x7dcf785f7fe4665b, 0x1689be7e9339dacf, 0xc9cc94a4f32e684e, 0x728991de9a1f6f97, 0x8fd1f4bdbc2468b3, 0x2f64c72a72f7e561,
        0xa6818d5c03978942, 0x23871a4415b7c9b1, 0xe6695ddc1df4774d, 0x10a3b342b62616fa, 0xc70192667c858147, 0x0000a9a721ced5d5,
        0x15cba2c28a15ce04, 0xfd95971eaedad9d2, 0x940e2d0babc6db79, 0x7309dbbf38338504, 0x3a6d1e21acc8045c, 0x5ee584fe5d8e13e1,
        0x018a41be9ce4fda0, 0xdc678012ded302dc, 0x9e34c441d15c8c4a, 0x671dc4aed1a4081f, 0xaf7fc26b31c5f6b8, 0x0000cec360344cbc,
        0x6a0fdc680a107182, 0xcc597c850917ae4c, 0x0ed07b07c8801d54, 0x9762a5f854bee630, 0x146c49098d2a0f3e, 0xb4f6fb2437c1e66b,
        0xd2f1a2e0ca70e453, 0x4a7be2985cf481c2, 0x477f63add35230d6, 0xa75ab1a31ebc47a9, 0x4d1e8fbc5c334d4f, 0x00016880b919d6b3,
        0x2171fc8d84d094ce, 0x9711eb1a0abea9c6, 0x116e38d22bffa606, 0xc6cece51ee2ce827, 0x455b8e2a36ee73fd, 0xfa60bcb2090e5df1,
        0x2909fca18fc9c7cf, 0xd6e42d35c138f9ea, 0xc720d0ea0ef1d114, 0x9df8cd68dfb94bad, 0x3aa0f518f65e2c4f, 0x00001d8d9951e070,
        0x23eb63f17986440d, 0x96cd6cad8df93abd, 0xbc3714367aa1dcb4, 0x135e090ee0eaaa7d, 0x9ea8ba8f90f0a17d, 0xfc82b0d9f930a749,
        0x47aa6ff6ade7c9ec, 0x6b11fe017a887e55, 0xf05d60d6e576c6ce, 0x5c7c1acbba13be39, 0x6ecddf8dd8aecf60, 0x0001aff7ca36f4b8,
        0x8a423618e1b1220d, 0xd32b9721f5c265a1, 0xbf0e7f352661ece9, 0x9742c9434f973900, 0x27b95601192618ae, 0x0f3df8d8e117c6cb,
        0x523c9943e3328ec2, 0xa765c8894ae44a82, 0x814bdc16fd30d1dc, 0x6e75173bb84a054c, 0x91ed2e99bf16e15d, 0x00001e481cf4846b,
        0x485d2f8418c5b8b9, 0x1795aade525581ed, 0x25afa413daf2ad5a, 0x9e4047e600c6a467, 0xd238729d170a3e35, 0xf5fd8a34127e195b,
        0x364f0cf4fe60bd32, 0xda48222c67150fce, 0x7d1f4fbb26ab9093, 0x805cfec9b91a5ef1, 0x80ada069e6ad73fb, 0x0001106b36d63a82,
        0x30f4cbb60c056c49, 0x8a3dfb50471e8be3, 0x42bcb29bc0c9d439, 0xe10be1097abd0947, 0x4816f5027d4e2c5e, 0x4ceb003b934d9f71,
        0xad6172fe9901492b, 0x4b1fc7d2a123b68f, 0xcc9b6196d9d08799, 0x87a9eb0cf8520552, 0xbd034f9e67f55092, 0x00004753e4b0a635,
        0xd18db9c30826717d, 0x5cd80493f02a5b6f, 0x113b0333ffd898fe, 0x4eac219a4d11c619, 0x04576daf646d15c7, 0xe07031451ceb6435,
        0x8db3166e3f90aa08, 0x5e459d2cbf582e6d, 0x771d9d38395856bb, 0xb1846040d6848954, 0x9860d934214f64cf, 0x000010c8d71e5eae,
    ]
}

/// Part 2 of the table `mnt6_753_round_constant_table`.
fn mnt6_753_round_constant_table_part2() -> (r: Vec<u64>)
    ensures
        r.len() == 300,
{
    vec![
        0xde0ca9f4d01286bf, 0x6f834c37f4fa70cc, 0x1e6697e7b953ce4e, 0xe34a9cd98fd4d03c, 0x96e672140bc11e9b, 0xf9ab772cd7470aba,
        0x1380559a0c0c9cff, 0x60a8ed76c9ade18c, 0x0f660a51bda3234c, 0xe0ec061a43d1bb5a, 0x2ab8b6316e717cef, 0x000178cce063246e,
        0x60956e7b0857350c, 0x565a9d9991017ee6, 0x61349bc10c9786f4, 0x43a042fe79a6b6e5, 0xd5b15f7d57711b22, 0x02566afe2fc30198,
        0x24ec33af00a42313, 0x58402fb08cc5cb10, 0xeb28de72756affe7, 0x00968dddbe03acbc, 0xfb1d29f9253fedf6, 0x0000b609ee81b47d,
        0xa551f624f3d8eb3d, 0x4d5461cb1e7ac60d, 0xf698a077e869b063, 0xf1ea31eced8306b6, 0xeafa515de39c6648, 0xb9b1eb734fddd194,
        0xada0caa331424167, 0x5a4f4ff40784f637, 0xd72f7a097ef8ec09, 0x6dd418e3cc8d0e58, 0x580022f360ff7e6a, 0x0001bf0ff5e07cfb,
        0x54f31d31af0ef870, 0x845c439b8a379d14, 0x7c6427dea72a47cc, 0x8675bb15858b836a, 0xcb214a0610098a47, 0xd94a7403003513fe,
        0x6a4e5482ec66fe61, 0xcc1599db30365a0a, 0x0cc6dda84273ec7b, 0x3df25e85feaee59f, 0xf64e3af0531e49ba, 0x000121253937fb38,
        0x906e1b66c6a7e975, 0x0c76eb1b461887c3, 0xd460c33f8a6b5c82, 0x43f53948f170eb2d, 0xcfb930a119bf66f3, 0xe52fa3835fb516d0,
        0x4509502560c13c8c, 0x5e2abbdb838d2723, 0x056711c5f085be9e, 0x35c83983e7814e6c, 0xb2cb4945388171ac, 0x000196895629d634,
        0x93eb8cfc766ee0ad, 0xfda0a4acee6e73bf, 0xdfd9f1929a94d2cc, 0x776ff7df3b213e1e, 0x12fa71bf9733cc20, 0x5d3a24866c2977ad,
        0x601acb7286661d05, 0xaa14d67d7f921ea7, 0x9835cb3457b07421, 0xa755bf21583a466c, 0xd57cd479c5fda5b9, 0x0001b122adddae4a,
        0x6924aff884967409, 0xaee19ef1921b99df, 0xf45a18a0a5978914, 0xe2cfa9b6d632d2a1, 0x316259dd64f06bca, 0xa91c7a1112ca36c4,
        0x1918bd82e4e79f3e, 0x61d03f3c96e23ca4, 0xed800f071ec6f965, 0x9c71cb661e33d16b, 0xd101e68111c6751f, 0x0000401c09101586,
        0x60f78c7709390add, 0x91e0ab4bbba714f6, 0x513efbe3d4b78009, 0x21c92dec0dbb90f6, 0xdb578ff5ca99709f, 0xf2be961a1d485c5f,
        0x5554945757fd6e4c, 0x3979d0e67980389d, 0xfe328a9de990f6dc, 0xddb4fa4d3479d86e, 0xa773675ff0a7ded6, 0x0001331642e8a7c4,
        0x0d7d5dad03ca0c16, 0x2499afcb38cf3699, 0x9706990a406bdf29, 0xdcfd3973ade0b64a, 0x91c0214408e75c6e, 0xd93ce14a55b5d500,
        0xd79d6693b859afb9, 0x4ff657f5b9e66ba3, 0x3e1bab75e5bd0c64, 0x6c6c5088e9756df3, 0x23b0695e2d8b09fb, 0x00002cd04f083ff9,
        0x516c3bb2455ba7aa, 0x965eec88182b1754, 0x6e73803c67626097, 0x2038c0bb10767c8d, 0x8681dab03028b598, 0x3252bc4ba584577c,
        0x09a3e196f6667130, 0x61cd9bba9bedbe73, 0x8a662c79695d3ffd, 0xbecf29d6fcf9de6c, 0x1acb779a6ce7376a, 0x0001b38ec109d1d6,
        0xd52074c1d148f72a, 0xb39720c1bddca04f, 0x0dd0b0fc8ce5e7c7, 0xc3f969a2779cb494, 0x418f3e3a38051cda, 0xc3fb8450840d0478,
        0x3b8a81526d242a68, 0x0ed68d31c6b63006, 0xd89048d50f8146de, 0x0e66f213b17ce9a1, 0xf7e2ca5248fda75b, 0x0000d791c8929439,
        0xf3856f7b20b58559, 0x44bf620e450dfdaa, 0xb373645bb211a1b8, 0x35c13e20d0283696, 0xca23e28040d6148b, 0x65ea92a906fde837,
        0xd953837a4e1c97f3, 0x2272d50e300a288c, 0x477d8f7f321b647a, 0xd073315993031389, 0x207a3ed754e7b511, 0x000038efbd27e6a5,
        0xfa597f000ad774da, 0x58f824fd82197842, 0x887cfe6294b7cb2f, 0xd0b2c0c4aee93e5f, 0x1b641654c059ce3e, 0xc800b089f9483bb8,
        0x104753d94f1a6a6a, 0x88f3c677fb7cfa64, 0x7235e56aa46f8da8, 0xc9b25202983a887c, 0x838f20770256e6a7, 0x00019b33a954db4c,
        0x7c11765005ebca66, 0x4cb1069b1b194c3a, 0x30e199c2412a5704, 0xd890faa97e2a4a15, 0x17eeeb241400bc37, 0x1db0c2d8f0a060fa,
        0xfed1f54492f95cc8, 0xf6c6f9700e131144, 0xd28f6ad18da1eaba, 0x870420f0e0faf619, 0x8a2fe95082c0500d, 0x0001019dccac332c,
        0xea8b4bef2404b0cd, 0xa3886ee9faaf3bd6, 0x762630888e341e91, 0x3f230a87144410ca, 0x4c6771fce2a9ab15, 0x7fec12a4d42d4688,
        0xdf19f95eee20ab1b, 0x3b5e912178b683c4, 0xa96e36ba0a905694, 0x3d20141918a6a5e1, 0xc1c34c15fff6381a, 0x000037477df0d72b,
        0x6eb13173c8af346f, 0x4d1aca29917d5143, 0x47734c8f0bf3eda9, 0xff0a7a9c9d20fa0b, 0xaacc2fa4a6c29f6b, 0xb286fae682ebf396,
        0x1000c1e1b09c39ff, 0x6931b4900c8f7102, 0x40b65a9050d5e817, 0x3cf8985ea1b5f718, 0x0036c5d8f9da8a85, 0x0000475342a9916a,
        0x9209ebbb926f8f00, 0xdc010ace4c1dea3b, 0xb383c85fbe34aba9, 0x37c5299dd1c56de2, 0x9b75a4090612f510, 0xc3e2c26e321d12a9,
        0xba73ec21707e3981, 0xf588a0c97e3b51b7, 0x10fb6813a1eb1ed9, 0x2efb57537195efa9, 0xbfaf6655ac08a523, 0x0000242f2ba4eb11,
        0xc3db67b443e3efae, 0x6d9b53a1d3587777, 0xbe72ff7d81b36a49, 0x292094e14a419e8c, 0xe8839312c5f33e6c, 0xc2681083a029582f,
        0x3851fc9baa0e9b4f, 0x7f9b4411e055b1b5, 0x4af6b345f6baa0fb, 0xf12add01e7a3a49b, 0x3cfdd9dcab393b1b, 0x0000b11c51d6010e,
        0xb030091254bc5d03, 0x5965033a18d05dde, 0x413b4b2b408294be, 0xb1df4628a9f5c695, 0x053e0029bd3a0a1e, 0x86276b38397833b8,
        0x811cbb8827198bb7, 0x40bce1d3f64cbcab, 0xc9ffb010f3852e99, 0x9aabc0de56b17b46, 0x0330cca0a4bee4cd, 0x000119903b44d422,
        0x5fdf344f78942c36, 0xb933858784082d62, 0x2397ae44ed07dab8, 0xb69aa95e521710f1, 0x45b785f59966494f, 0xc4754216c25ed6b2,
        0x2bc7a01bbfa9e352, 0xab26c1db509e9bb9, 0xe641f5b37bf497db, 0xbe8bc5ac2bfd42fc, 0xfb1e060924eeed15, 0x00017f39f733d411,
        0x7e1ebaf4495e223f, 0x4a93c2d08bdd8e4d, 0xf62ab9796aea459c, 0xa5534a88a981eb49, 0xf7be8eb486bb2089, 0xe2c265f8f60a8dca,
        0x4685a222a4fe6ace, 0x27cc8696514d35a9, 0xec91a1fda0f81787, 0x73f17907f32f5969, 0xdc743d12bde3069f, 0x00014b5f3c17945b,
        0xeb34ed3411eed1ea, 0xf47ea3045a4bca5c, 0x09d07afb97298fd6, 0xee8ae2c1f31d8a11, 0xb402817116c066e4, 0x7353e09eef0f05b9,
        0x52efa091d6ef3aeb, 0xb62172f140d92807, 0x30052f266c02e993, 0xd14f50738da7f66d, 0xc8541108484fd63a, 0x00003055f84b596d,
        0xd1677c4bfe0a1d8b, 0xffd29a0a7208c3b1, 0x134c56c0d4c7c6fd, 0x9880f82b77450a27, 0x3d288ccb9fd51fbe, 0xf9085c71f2a3ae52,
        0x253e9ae868e8f52f, 0x77e00b52bc0834b4, 0x9d57391aef86a5b8, 0xbd2de9b91a1f52e2, 0x1eb44b53d1101207, 0x00002ff895bb5020,
        0x726d0fedcc2017fb, 0x27c7abf81ff95bd8, 0x8184dc3dbe90f8db, 0xe7f63b195afa3b70, 0x187b53d963584d82, 0x555e865350a6fccc,
        0x5e1b1bc97888591b, 0xb639418723fc26ab, 0x9fe784b69d5e721b, 0x5fffd76c01a7904d, 0xaf7b63389bb057a1, 0x0000d61832231ccd,
        0x53681878ecbfc030, 0x584a7042d5b17420, 0x65c18b08f16a5436, 0x89b8746ceb43ae29, 0x530a67b95841eaae, 0x9697a61ab8d72780,
        0xea50e9776d5078db, 0xca2482145accab3d, 0x5fc6c8814b445640, 0x9a5c7d5c52641904, 0xbcb409ea304b6d96, 0x0001124d0bb8dc1f,
    ]
}

/// Part 3 of the table `mnt6_753_round_constant_table`.
fn mnt6_753_round_constant_table_part3() -> (r: Vec<u64>)
    ensures
        r.len() == 300,
{
    vec![
        0xba513a58eab085c7, 0x1d831042805d6473, 0xed38a8b8212ba3fb, 0x68474f031e36ac1f, 0x2740dfad9c469873, 0x7530b0d162f0bb2b,
        0x75bdf0d4bcbf4ec1, 0x7b72e20ad82355c3, 0xaa02f7cce6eb449e, 0x037acfff095ac455, 0x8cd70c587af14795, 0x0001830c985dc3eb,
        0xdd84d0c3e4c24902, 0x2ad835d59b9dc3b9, 0x6f6b141b0203e1fe, 0xc195bc5c4cb0a57c, 0x4aabb53ac1465af5, 0xbc2dd9e7a600392c,
        0xa935783c6507c826, 0x987aa4729d67047e, 0x0e7c417be5166511, 0x805b189697a4c380, 0x4b0cc57ab63d9cbd, 0x000012b8f2f1f270,
        0x7da798efde5bf75f, 0xbe5740e07392c682, 0xaff5de93cd64598d, 0x0a73dab7c242ee5a, 0x22c57d875a382f22, 0x0937d5b40e25722a,
        0x5bfc22571c039923, 0x424f22567744bfe8, 0xde97fa625bb9e0f5, 0x006d36a303ad1999, 0xa73822c964eb07f9, 0x000142287b74c969,
        0x8a524ae8097dfc5c, 0xaada5f4451b91106, 0x96b72f16f035d7a6, 0x95acff8547bde745, 0x00b56594d5c62a02, 0xfbe2ac9928a4e0ee,
        0x2071e0bb5b1bd4ec, 0xec9c3a0899d5e983, 0xac2688bf245b8a88, 0x4362e6e913d0c12f, 0x8511d7b76a5ee545, 0x0001717a7c20fe2b,
        0xc35b7625061d3c6d, 0xfb8c7da3fdbf436a, 0xba88cde19398e11d, 0xcbf2d53adb86edeb, 0xa5d5cb6c1f128d97, 0xf16591c7c010b162,
        0xe3418f832be0c130, 0xf052951aa83fe4c2, 0xb0c9b6c5b9d4eb92, 0x4e1b690d7c007f53, 0x9e16d49b6c7acfe2, 0x000031804cacb354,
        0x76d513ec6dce84c6, 0xc941b87be6fe4686, 0x18fb1923ba1cc328, 0xc0498b4153703798, 0xa11ee19edabcd92d, 0x7628bab5ba6620cb,
        0xdedf53550271d6cf, 0x6f0c0c81eaec5260, 0x6924fc83b3655e1d, 0xedccaeca0ec4b7f6, 0x8082c863e1c90772, 0x000163023e81b9d7,
        0x1708c36a168049a7, 0x04827b9085915f30, 0xfca3750b885846e2, 0xdb2173462d53f836, 0x1d0fa0126549e2c2, 0xc3278d98d4032df5,
        0x81fe2807385f0b2b, 0x51277ca6975bf2b5, 0x9a8c8badadf0fb19, 0x8647c65aff73c148, 0xdec1b0d180bf06a9, 0x0000cb5a8b033747,
        0xe5b1f0086a391994, 0xc7a3ae2936f53011, 0x24cda07c708b8fc9, 0x3e407f79d9706f83, 0x2fbcf9088509bcf3, 0x99c0efeede884414,
        0xa1f830601b2138b6, 0xffe75368b57ae503, 0x10bf347e49e1e3b8, 0xde09d87994aea6f7, 0xb65fb79e0ebe8a46, 0x0000cc6103bf1060,
        0xd952291cb5b757c8, 0xbcdd6199a0fc48fe, 0x9f044d37b0b92758, 0xef0a5253eb5a333d, 0x91d88b9f306f9184, 0x566a8399335152d6,
        0x5e1743e50b4d153b, 0xda6057b3c7423512, 0xa662c0d0b89632bb, 0x3c6efd7fea97b3bb, 0x4c7ba2e6dfe99cd2, 0x0001953c5fd40ec7,
        0x193938ed0e0619f2, 0x6dbc0bf5b7dcebe5, 0xf550ba1893cb963a, 0xe11fc4a7363136d7, 0x6a9865bd0f0d9b41, 0x0a94ba615714fa97,
        0xc65567a3e3692f49, 0xbf4bb0801e7fb123, 0x0cc5a8e48f1b7ce8, 0x28c9ce7a8795fb7e, 0x835bf9c965eb2d1f, 0x00011cccbe81ac94,
        0x9ddc41b69a999602, 0xe1691dfae0ed0dc8, 0x7ad7ded244d22b22, 0xa55922d3821141e4, 0xff8785dd0dd0b809, 0xe04c2905705e30c7,
        0x6b5c64006fddfff5, 0xa89135d61d6c6b4b, 0x99849d2e697bf575, 0x5aafa4bc6c0683b4, 0x4d57fea661ea69c1, 0x0000bd2a0eadf49d,
        0x8bcb7eef8dfe337b, 0xf1ff10406742ca99, 0xfa74f094972483a2, 0xcf07eac8da770482, 0x23ab4a55830e28ad, 0x5b149d431c8f4a05,
        0x50b1d8f98064c5de, 0x7aa0bc3fa2f7e01f, 0x94874aa87c949b1f, 0xeb517417e68968a0, 0x99ac188fe72c77a4, 0x000134b6378566bb,
        0x5a0dbe7cc53318e6, 0x5429633adc73410d, 0x86944cad26e48a63, 0x36894c295e79b856, 0x064cc93bf97e38d9, 0x94e31aadf69653cb,
        0x51ac3ba3fcf34317, 0x3662177caea77034, 0xa7b49589d2c6585b, 0x2a665bd893d9ca08, 0x88c5bf0e648901da, 0x00007f023589f8dc,
        0x0da2978bf01efdf5, 0x2d3671680d710b62, 0xdcf7c5cb0f63241c, 0x68cb88c906e38432, 0xcb81cec0ddbd873f, 0x26d45e92ca56eb72,
        0xe1165deaa776cb4e, 0xb5550477d0effb45, 0x62c7fdf9c99331ec, 0x268f5b77272f3d07, 0x98a555bd4a7e6903, 0x0001403aa1ed14df,
        0xf2ed1c50a30641da, 0x580ffe88f4c9974d, 0x52e7eb1777681946, 0x690d3cd9d988c127, 0xed20ddd35e08a2aa, 0x8ca06bd48e1bb6dc,
        0xdd2874a2c551e1f1, 0x52fbdab83e30661d, 0xcd33552d45222600, 0xba9c78bf91da1732, 0xebae8c141f372c8e, 0x000013cc458af1b5,
        0xa68db7c20f984c4b, 0x4c14a2bd0fe7a9d5, 0x2634cc295eedeeaa, 0xfabb76092f430e1c, 0xb87933239d06aac7, 0xbd10827173e95553,
        0x9520b3f2fccb9822, 0x2dd42c77760fedfc, 0x6403a623f5a83261, 0x4e100b9cec3bf9bb, 0x75d81b7f72e03dc6, 0x0000a1a4b775e764,
        0xa291da23e4466782, 0x596e92262fdc7908, 0x98d133fd7adb1f9e, 0x1ccd66fcab80a063, 0xf504f0757b85e0c3, 0x7eb080889bd9c71a,
        0x6e2f979db7c03592, 0xa0df39bf17d5c132, 0xcc01316738444f53, 0x388802537ed9f2f3, 0x56641920bf0034b6, 0x0000821905b122b7,
        0xb812fb62ace052b8, 0x91040db279dd65a7, 0x954375f423194d42, 0xe16f5af23436b763, 0x7d3cfed40a89cdb0, 0x437c2269df572c49,
        0x0f1bc83815fd8062, 0xc6dcfa8b5a4b3b1a, 0x892d6820b75f768f, 0x7598c35727a95445, 0x66533fe60164f90b, 0x00003e3b00fa520c,
        0xcc103c6a12eb042d, 0x8c1e7817752125fd, 0x2bc0d4f2723c49a9, 0x68ad1766a5515374, 0xa8ff9dc59e88cf50, 0xf2d98a390a216bee,
        0xc6415e7ff026d20a, 0x543b61cdd5fda8c7, 0xa05ddc9a322bdfb2, 0xe5176d89ccc2d44c, 0xae03ee4869ff3efb, 0x00014da4b68d8fd9,
        0xb3b7aaaef459ee0a, 0xacb6b9bd9751a233, 0x3c4fd9c5f2ae2090, 0xa9bc85990f724669, 0x56f26b01ef856621, 0x0320230d25dc3923,
        0x782d63dafcf19ae0, 0x4651d7eab15dfb00, 0xa23f084bbdb78d48, 0x2b3e736c25842263, 0x972a194cffc7b319, 0x0000df3413e50fe4,
        0x400f76df76705005, 0x4cd11c9cfd91fd53, 0xfb30963f26d8accd, 0xfaafa4b5a25fe8e5, 0x441be47d45c61c86, 0x181e1427edf865fb,
        0x480e0ebff4394760, 0xa5990d36c14404f9, 0xc8a9f888bc75d2f3, 0x2a30db5b753df097, 0x9d599ae566bc788b, 0x000143c2dfbfa5d6,
        0xe7cea7fa7c4e0e49, 0xbd05e42576963050, 0xd25460d607b70e86, 0x61806bd0cdcd27ad, 0xbcc7111145c54427, 0xea7403754ea5e997,
        0x5636edf2f856a42a, 0x5d750f25dd14ebc5, 0x6d916e8291081471, 0x4477e6484942244a, 0x5d873e3eb3652807, 0x00004bfed54d667e,
        0x1de050d2bfdc8696, 0x4256385883299d9a, 0xcadb82f5388e6086, 0xbe9d031e7506b5f9, 0x9f1fb325705e961b, 0x190cbab5539b8d4b,
        0xaa681bddd5da0ba8, 0x7ebedfc608a6ea92, 0xb9999a4007aae322, 0xcd5882ff4d644858, 0x512f4dbd39328c9a, 0x00006750f780f8da,
        0x3ba278d0c33f01d9, 0x5ea78f15381648cf, 0x99b28640258c3e39, 0xed9cd9245150184f, 0x0f9421199b62bd26, 0x12ea5032df8c54f3,
        0x471fee2b400298b5, 0xd545acf316c7992f, 0x81fbe27ce21d62c6, 0xc2992eb1d1a597c6, 0x33c7580da0d4dc52, 0x000037746f77aa75,
        0xf4462404db7245eb, 0xc9405157d1ff58e2, 0x848e0d8bf4ca8e5d, 0xd33d51eda3d05a4e, 0x84860a931806eec4, 0x5c1d12a7c710ec4e,
        0x612bad6f8bafafa7, 0x7d642d4ee96f284d, 0xf1ccfa9293683603, 0x5582be7a9997f496, 0xab0329c16c3008a7, 0x00003afffb3c5d19,
    ]
}

/// Part 4 of the table `mnt6_753_round_constant_table`.
fn mnt6_753_round_constant_table_part4() -> (r: Vec<u64>)
    ensures
        r.len() == 300,
{
    vec![
        0xeac76fbb3f0a5564, 0x7ee3e513f4c71468, 0x1f536ff686f600a6, 0x0a83bf167cb86699, 0x7a193a51c114e99f, 0xffd734318a93a978,
        0x61f255465df2f5bf, 0xc13e4ff77c82cda3, 0x9d2e09fc7d51090e, 0x28baa2d3b4069d9c, 0xdf9f2bbfaf805a66, 0x0000e08e87955c08,
        0xa03c7072321ecc0c, 0xc3f6fd8587f6049f, 0x257f7e0d5393fc9e, 0xebea2f4bba2d170c, 0x529e3417dab6fe8e, 0x36b48a22332237f5,
        0x35eba06ac5108fe0, 0xb1e5eed9a31d7963, 0xe4dbe804d415d24b, 0x9a2c80b26a419b23, 0x5943e22bd496e080, 0x00001caeace76065,
        0x6706ee1e149517c9, 0x249eb71478d72c6c, 0xd07c2e0b12aec4d8, 0x08b6bd188422ed59, 0x979fc3a0fbd768a8, 0x00fbd8eaa51f37a7,
        0x1eb35c0c250b6d70, 0xcf48ab2305377ea2, 0xeee10d55deb89353, 0x29dbc6ded80f33b3, 0x41b3b36aa36edd0f, 0x0000489253fe8281,
        0x213fd8ea4c995f37, 0x476639f1eec8fc88, 0x47da01b713b03f34, 0xf39adac77198ca8a, 0xfc18ef4b5da3b2f9, 0x9778bfffcb1f7b60,
        0x60b7034c050bc3ff, 0x27ca9146b4c02b7d, 0x00153f3655fb3ee0, 0x9d7d24c686d57fa8, 0xcc9297e833add1b8, 0x00011ff2c0de3afc,
        0x674bf94f342bf3b4, 0x092486ee891c9092, 0xd74c20e6ccd54b3b, 0x9faaa2278e37deee, 0xd22811ee059bca2d, 0x4c66ddaace2d1e8e,
        0x9270869daf8e6cae, 0x82230a8dc384abb5, 0x1f821065e84a632d, 0xb98e6d7fe21a50c2, 0x7b8a2c965b70376b, 0x0000ceb03b0d9006,
        0x3ae248a4d4d3f5b2, 0xe0d58463fde05bb4, 0x8381bf55d8e74a74, 0xc91cdbd5075d195e, 0x7a320dbbd0a5450d, 0x1787505456e17c8a,
        0xf1cffb89e2f47a5e, 0x84f195b00b205d7e, 0xd6891888d98a6013, 0x9b299951fff6e221, 0xb23c0b4deaaddcc6, 0x000172b74a890ae6,
        0x183f24680be46073, 0xaa54a3e552345d1f, 0x3b4fd0c35f2ff809, 0xd37396ff0c846e5f, 0x6e65b53dc61221b1, 0xe0ad50139d1d1740,
        0xd2c0f8f9c00f4cc2, 0x343c2beb58299d54, 0x2395bf7b2762ba83, 0x07c95a1b7831373d, 0x14600c8b1aafca1c, 0x000148f4114acbff,
        0xf4118441ec7e28fb, 0x5bf0ccc766aead65, 0x291c7a5f631b69d3, 0x3725d400c6738d9f, 0xab9ec1cbdd6c9028, 0x0dc79db9bf2be290,
        0x1f74748ce7e48c52, 0x8309040c790c2795, 0x8bd4a585c887f4ab, 0x1d4aa0ae202cf05e, 0x59928729b4bdd97a, 0x00017031b9623f66,
        0x411fa6cb11cfd73e, 0xb4ed1353ea6bcbf7, 0x34af708f2ffef71d, 0x072a2d89ff7d1912, 0x9e7f582653dc5855, 0x13fc784b45b02e58,
        0xe818adcf0e57904f, 0x37efee1f7d231e33, 0x652172a3d7e50281, 0x3e621ff835363dae, 0xe65ca96ffc1b3d4c, 0x0000e9658a21886b,
        0x379e21cbcf50de76, 0xd4a81f995740ff22, 0x8fbe6d0cfc4d1cc6, 0x9e4985e57c3f455a, 0xa951b22a1087ea97, 0x345813127fd341ab,
        0x9a1dc1e0890059f5, 0x72bfa3f1e96a0185, 0x1f098f72769d66b7, 0xdbb5d9c9c7fc461e, 0xfde0b6c43bc9600c, 0x000010423032f6e8,
        0xcaaec77b15329449, 0xc3622efec1a067ff, 0x990e63140fc2f98f, 0x66dcf71d65a12de6, 0xf48693fd2c471945, 0x2bfb524e21b67699,
        0xef1163472789eab8, 0x11f97b8b715f298b, 0xf9a9fdc4f261c445, 0x3866ae5859699f85, 0xc8666dba3193367f, 0x0000edf67f2275af,
        0xde955ac55349a9c4, 0x66053da2c4004869, 0x7bd756e9de977216, 0xfa49ae9f7b264d90, 0xbfd513816c3d4dc7, 0xdd44a4351aba36d7,
        0xff35b48675d8e401, 0x4d107a7b9d05d5ce, 0x99477fffa0c2a725, 0xd4c4d360b06f980f, 0x69598b18bff87821, 0x00007ce113f6bd83,
        0x79edf600c2465918, 0x06458be2b472fca4, 0xe050e008fce84af7, 0x91d248853e429a81, 0x0c54c3dccbf1e37f, 0x78ec0a8debe0c96d,
        0x032a2ebfd0e02351, 0x5523097e6b62fca4, 0xf2b0057ee19c132f, 0x62806786101d24d0, 0x70c95c769dc7a5f2, 0x0000041935ecad33,
        0x1f7a7dcf8a557929, 0x592d2ead40e51b9d, 0x42f95f255000f254, 0xa870f40430ae4e32, 0xfdb7850dc319d810, 0x0b8798323cc81140,
        0xf03531c5cbb324c2, 0xd9b76ce6213b47a0, 0xd5399605e9ca6ab7, 0xbfcc65b20b081b95, 0x3ff8b1a792e62f29, 0x00018b850b121992,
        0x2129e48a476d0267, 0x50f04a23e4e62dea, 0xb31228bed5e338c7, 0x8970c425417b859d, 0xc5bd52b3a244aa8a, 0x5993214d3046e931,
        0x3a9006540d72b1cf, 0x2febacde90f3f78b, 0x021895d8b5dfa66a, 0x07451e3106a50e73, 0xdaf0e473ee01f9f4, 0x00018390372ccd77,
        0x236475b145784cf1, 0x4e344a9c10d7b648, 0x5664352aa8cc4063, 0x4de2d9d8e78a5b61, 0xb0a964b1a79c6805, 0xfed7a068a198b052,
        0x01753ce940174eb8, 0x3d6f1680bae0e464, 0xcc7741fbe6a54507, 0x03ac48b830298f4c, 0xf11a32ee7603fbe5, 0x000065f48cc4590d,
        0x8d999381b97d0ee6, 0x302cfadd8da39fe4, 0xe4789345c49b1c79, 0xe252fe590d7ac89f, 0x6b7ec223dbbb4e39, 0xdd2ac44dde12617e,
        0xfe141dbba4f31eb5, 0xde817a82dc9c1d91, 0xab983d7323c8e64d, 0xa2456e8afd55918a, 0x3fccc64885411f2c, 0x00008585bce84ead,
        0xd177aca86c044583, 0x79cb454afd1aab92, 0xaf758b2d174e9464, 0x6006f42d18158e19, 0xdad88b1b3e70318f, 0x4e55510d68b19e77,
        0x1b77ebf48be03548, 0x4951349c288d4ab9, 0x8680cf4558eb4db5, 0x28f0d8cf91500f86, 0xb884ed984fa838b5, 0x000087bc7ed13974,
        0x644692c91914c024, 0xd9b112626d22b488, 0x191cee2bb696b1d4, 0x266cf207d37ad0e2, 0xbc9b939b1ffaead1, 0x7c3d5c0f9d53303f,
        0x38f7018ab528d7b8, 0x000191940bc0d414, 0xc314e0f9f257678a, 0x136007fe6871c4a4, 0x17951c4b701ff628, 0x000196d3f5b0181c,
        0x3fc54b069c231582, 0x649286085b3d85cd, 0x5a5f834f79ade2d0, 0x7f797f53636119de, 0x640c1fd2c6d303a9, 0x57b93f85ec7a56b5,
        0xe2568fedcad61fe0, 0x88d09250d40c8b45, 0x9ff22b9efd2ec238, 0xc467e6d9f4f128f3, 0x525fe04a60755799, 0x00006f2b8e344878,
        0x8c49350e6af9c159, 0x2e6e7d2b9498f9c7, 0xc29635d138da5037, 0x76f75f67cdcb7331, 0x5547b8ea825e8097, 0x5064816ed91cd86a,
        0x53129f36cb44236d, 0x47708adafd90ce77, 0xf736419eed324a06, 0x99b75c62fa148acb, 0x9d1974fe33343b5b, 0x00015819fbf40e62,
        0xdf2cc924469cb4af, 0x38ac8d53aef71ec7, 0xf9220f9aa957a7c9, 0x5662fd81b42aa845, 0xc38c8a41c2c3d833, 0xa9a542ef3a383c45,
        0xd3548e6a159ff15b, 0xe3f403c945e4517b, 0x3e3929bb4e074c59, 0xabb2934a252d9418, 0x4bdcfdebd6f1533f, 0x00003b9b976c66b5,
        0x9dcbe9df6d69c831, 0xdb1ccac9ac552d1b, 0x0e79075f82b538bf, 0xa37cd1dfea1fcd0e, 0xa3b255b22bff0ab2, 0x5ec861bec918e658,
        0xae83b31392fb7e82, 0x59a5773ae278cb48, 0x5b11d38162e8ec59, 0xd487f94b81d0f7d5, 0x6b847f1195a3a737, 0x000129542c5da835,
        0x6ed50ba0e2d8eaa8, 0x3a87d383ecfc59cf, 0x174c1912ced0032c, 0xa43c57bd2f603ce4, 0x2d034e257a6484d1, 0xf14ee23205f3a980,
        0x5e72d356a3a5c7fc, 0x399a657b5511548e, 0x81713a054848eae2, 0x4dd70db6f96c12a3, 0xcd826402baf5e99e, 0x00004813a72002d5,
        0xc4e8f53bf045b60f, 0x6dcfab1164903e8f, 0x55bfe9abe0d03924, 0x51fab70a6540f3ee, 0x80f3fc60c7832b47, 0x69050263b5945bc4,
        0x58f652142ddf742d, 0x9872e77f1793302c, 0xcd88c3229cf0445d, 0xcc37863c55e553dc, 0x10b204ad8316d966, 0x0000d8540553de85,
    ]
}

/// Part 5 of the table `mnt6_753_round_constant_table`.
fn mnt6_753_round_constant_table_part5() -> (r: Vec<u64>)
    ensures
        r.len() == 300,
{
    vec![
        0x68b4c903a716924c, 0xa56ad76136af2fdf, 0xd7384498c67ca02e, 0x79ae142e1f1c93a1, 0xd8b926c82681e4d3, 0x3eff489914ec1b09,
        0xe82e6ab7dea152f9, 0xa8d5639324dce1bd, 0x146a7c9cb14039d0, 0x4986c06ced3413d7, 0xb60e5eb1b6d578c2, 0x0000cc2f20b059ec,
        0x965f9cc5e420c8f8, 0xc9ed6aeada5ee0fb, 0xf4731e4a0e147d6d, 0x997acb16d7747617, 0x1011a736a57aa1de, 0x1508d374ac81b157,
        0x48442de46b9ec36e, 0x14d6892e81c6e125, 0xe053f7cb6bf61e52, 0x42eed99c57c5787c, 0xe890dcd58080dd02, 0x00019e2456767af7,
        0xa120a6268865bb38, 0x573a3f08b888218e, 0x57b136dbc889697a, 0xed8121a3f434a75a, 0x110e9d035ec306f4, 0x40b5b767e94c492f,
        0xc5a95112fff0f202, 0x63ee2f86e96b2c22, 0x2ac0e5aaf400c564, 0x59ee872a9ac17d79, 0x31d6923d6a704591, 0x0000cbab7d022fc1,
        0x026b4de197323c18, 0xbc46c23ce0a8765e, 0xf731ce985df5fb1f, 0xf9aa6630dc8bc0b8, 0x89838eebf8e104aa, 0xbac0493c3f05eead,
        0x71956b378f8f5190, 0x4e7571590e497e7c, 0xe8d44d9ca052c40c, 0x6333a07cc209f89c, 0x0b8218b47288e034, 0x0001a146a9b90b02,
        0x0bfe218325cf04be, 0x42a49f4a0fd8c02e, 0x4374eae430e06361, 0xb52d630587e235d0, 0x38738b70335d5bf5, 0x18393d646be79ae9,
        0xf7c2230ac89ec199, 0x7b9841489cb1cb39, 0xf93e0ab6ea9396e8, 0x1940419ff8945ee0, 0xcc527210adde64e1, 0x0000c0e986c4b72d,
        0x3e0920cbd9a3b247, 0x23ff73d3bb0d0f1f, 0xdbe54c7a1d61c63d, 0xd0899518fe3dff8e, 0x3e5a295ff24310ad, 0xe81983b9f20eb850,
        0x1ea847e5ff7181bd, 0xd481cd1f38ac580c, 0xc31c73ce86a33d33, 0x7b87f41b2dceedc2, 0xf383b351b48d69a5, 0x0000e2a26ad5431b,
        0x071f3262dfff6835, 0x9faa9de63bff95fb, 0x5356db639efe10ec, 0x5fe6ab96fbc3ffaa, 0xe088d72820ed1689, 0x59d875354358ed8e,
        0x1943ade581242df6, 0x781c0570951c4f6d, 0x08d6d2d3eb5fd5d2, 0x2c6a913f88e3ba49, 0x2471d9239b3c9d19, 0x000174e246094b35,
        0x882791065d1480ea, 0x785d70fb937e081d, 0xf452c97a06a2ba78, 0x303a3cc902f6504b, 0xef1f8ac67989803a, 0x81e47d60f1c4fc7b,
        0x175698598e07bba8, 0xadeb6609ae1b9b77, 0x204bdef9e64c8fb9, 0xa7adfcf213756dba, 0x62706dd164544d84, 0x0001ab94305308aa,
        0x8654e62addeaad22, 0xa29858ec9ed8b143, 0xaa6e2a9d30b33f75, 0x3821edf5fcdb9d38, 0xe3a1cced2aee3725, 0x13f9c0e7281751a0,
        0xca86a13b9982d7c6, 0x5e947f07380c0b45, 0x83b3e5f8eac3306b, 0x90cd219e2d7cd860, 0xe3da3f329729690e, 0x0000435f8594f9bf,
        0x11b91e23f028b167, 0x1c06422eeabe6fbd, 0x8291577ebc1e1653, 0x48347dcf6ba231f3, 0xe6c2a539117bcc1f, 0xfe66df379f88eb23,
        0x06d11957e043051d, 0xebda6c37f5e7d16f, 0x5109e9c8aa83ec38, 0xa83ae2c821a631d9, 0x4d615c9ed4a26987, 0x0001471139c41a28,
        0xef845ba74be66d63, 0xc3306a682265779c, 0x4f6a8e0b045b9b6c, 0xd0eb4d05093db089, 0x015e156294e4a6ea, 0x84079540d5595a8d,
        0x0d2e80a649824f35, 0x5b30dacd1525a1b6, 0x62dbb93b3c121c49, 0x6cbee9c6fc17a9be, 0xdb138d0f8681d14c, 0x0000a6411cf3a1fe,
        0xc88fceed15e4dce3, 0x76dc41da5e5bbd15, 0x9462ee532545c141, 0xb4c3a41aeb9a99ed, 0xc5c740a6e5d0defd, 0xcfc343f28674d5cf,
        0xc55e96e62d1a57e9, 0x3738ccf384e4a541, 0x4ce591dec1541347, 0xb5a90972393dfb2c, 0x32f27a4797400345, 0x000136ecea2cdf02,
        0x8882a9af3604bbec, 0xa3891b3e1d584a5f, 0x953a7d1e7ab30918, 0x83b8d95e3f789b43, 0x837da38a952a87fc, 0xf951b5354aa6ed82,
        0x4f50bb0f636a0f4a, 0x4e3e1f8a84871de1, 0xbaebd741ea83c891, 0x7ee74a2cb0429556, 0xf3f91988b57bcfe3, 0x0000a7cd7e9b6b06,
        0x1f978b8543c57375, 0x7aa80cbc9e9bcd54, 0xf3f0fbb7e15de101, 0xe04ba95d1d98ef85, 0xdbb44c37823e3fc7, 0xdc1abb339b6777c3,
        0x2aac30b1e13e4bc0, 0x41902e38dae4106e, 0x74d67ad3c921c0a7, 0xab6e389f939a8d02, 0x76eb8f119ab96fe4, 0x00018d1c3eab6afd,
        0x4699076c9e356842, 0x7ec24e0f054593c0, 0x31ca8d7a8c09b072, 0xd7739c647c04eaf2, 0xb58053a0e4f0ee8b, 0x01b25b1e2e5f71cc,
        0xc94f20d8db81937c, 0x938a52ea79b46da7, 0x07cf50413bec707b, 0x9ea6fc319c27d047, 0x7c10ef373c715f21, 0x00011aeef0aa340c,
        0x2deafb90e40b99b9, 0xbcc9c960842a4c67, 0xa2de7badc7585932, 0x2cbd7662636de698, 0xd5065c85a8dfcea1, 0xf5789607cfaf353a,
        0x3a7a19644656b0df, 0x6e908427ec39dd1e, 0x768739c7b1fd57d0, 0x0bbacd5330744910, 0xc731631d71147561, 0x00010d4c988ecff2,
        0x6cdaddcb160fa8f9, 0x93a1c00af9e57362, 0x0c0fac3e1f45cdc7, 0x0ab289f9ea86a2cd, 0xf349fee43e1d013f, 0x25ca8bc8d48a2ef1,
        0x39a69dc975320c0a, 0xf0af3cc2ea037aa6, 0xbb506cb3a4728a17, 0x9cdda4a7adf0ed83, 0x4298609cfec30687, 0x00013dcbc464c120,
        0x997f633110730ac0, 0x4d4e47e1b5f1b250, 0xc911d55559ac32da, 0xa8e7802e3d761085, 0x410259e73d5381ab, 0xdf30fac1f150a073,
        0xcbcb4936bea569e9, 0x4807334cb0ea72d0, 0x839a3792a9a633bf, 0x8b826c95a9bb99c6, 0x501f0ac5e5ec1321, 0x0000bbf67218cd27,
        0x63d4a6ee707dd569, 0x91762ef2e3e32789, 0x6c9ca0cadcab6577, 0xa96765dd37db987d, 0x52c84d8f481ac378, 0x205981275a6831c8,
        0xd9a1bc1b70091e3f, 0x7d94e4480862e138, 0xc32fd4aef2c44f63, 0x678135667f1dbbd0, 0x4ac779ab5dc77b91, 0x00008b702eb3924b,
        0x971796d012346ad2, 0x8122be20de3cdd46, 0x2fb01460f7452c7d, 0xa083f7418399d8ea, 0x59392b706a17a8d3, 0xcece05fd5d457a20,
        0x47a69b57cdac8287, 0x3cd0bb0bf2534f41, 0xfc2a54bea161785d, 0x2a12e1f5d902ae7b, 0x78d9d805b94a42e1, 0x0001a396b3474191,
        0x4a983a8f44a7ca02, 0x7f8f85078310fd1b, 0xbbb255e17961f6b3, 0xc5731566affa685c, 0x193d44498e7cff47, 0xad6b9be413553a81,
        0x48ac1763ed6aa88c, 0x3ac1b0da1625ec88, 0x5cfaa49c69b6e670, 0xb8537bb682d9e38f, 0xdbdb6034ef2052ec, 0x0001537d1a1edf40,
        0x27d5b62bce803bb2, 0x87bb214ff58d8312, 0x1fbb7d6cec19d038, 0xc97ba3199a5ca6d7, 0xcf58f6ab562a581b, 0x26700b6a7535fef1,
        0x4f61ac1ddf108a08, 0x291fb31adc07ca0a, 0xab88cfb4b909b0d9, 0xe115ea599420a74d, 0xe716e1764d3341c0, 0x0001bb56e544a4cd,
        0xda45e4e6ae5bfe3b, 0x8a68f9b31c07b59d, 0x88a7cfac26d967fe, 0x42fc38f7f7653a56, 0x0d90c3e73668627d, 0x24d7c2f1a38d3ab6,
        0x444c306444382e84, 0x7e9c35df198ada33, 0x08db57dabd83af6f, 0x91d7fa7090114a72, 0x61da2deb42a82090, 0x0000992995123027,
        0xced0931c14df156f, 0x0049c528d9c0efa8, 0x04a922ac045ffe39, 0xd6c3848287516059, 0xa4bd9a3ec180d6a0, 0xa9541289dc32a82e,
        0x38ff4f20d1e19af4, 0x631d8461af0514d0, 0x487af6a65cb76b1c, 0x16d440d44fc2b58b, 0xfaa427799893f559, 0x00016be318adf87d,
        0x51399adfa84ea351, 0x1406b846ec658095, 0x79ae9db8353bb052, 0xa1f0d6c4be753bf6, 0xa8259d26e1aef68e, 0xf32265078fc0d83c,
        0x93e0dcc14541e8ea, 0x432490548e76d077, 0xa1e40024217298f5, 0x4295580b7424d908, 0xe883b06d30055ff8, 0x00012bf73abdc16a,
    ]
}

/// Part 6 of the table `mnt6_753_round_constant_table`.
fn mnt6_753_round_constant_table_part6() -> (r: Vec<u64>)
    ensures
        r.len() == 300,
{
    vec![
        0xc4ad95ed0b35ff13, 0xfa6ed31ccc4e1142, 0x3f69286d2dbec772, 0xbfffec549126b71c, 0x887b285b7fce0e55, 0xba5de479caa40bfd,
        0x85dbd6f247c9015a, 0xddf2c79da5cd986d, 0xdbe0be016d8b6291, 0xebf5ecaf03ef3611, 0xfb752ea8f5b71de0, 0x0000c2aeb9dbd44b,
        0xe22080777e9cb85e, 0x96a6c71c5aa644ca, 0xb3773373741d2166, 0xb90c05e1cf608317, 0xa7dea85d86fde57c, 0xe947a7fef0e9fdfc,
        0xe648386635b5a859, 0xe893d91145222ab6, 0xcf8cafef4a239365, 0xe5f814fafc2efd57, 0x07b58c401322711e, 0x000169080254af02,
        0xadabd2d642375d38, 0x5bf73e619430e6a5, 0x48d0c57d3cde04a2, 0x067de039aaa0f1ea, 0x87f9de64c0f70094, 0x59b8a1f42a18a6f8,
        0x21d74fb03ab71179, 0xa5184dca916caab4, 0xcde1be196e55567a, 0xf98310fb9d021f88, 0x01c4e72871e0fa9b, 0x00005a1bf123819d,
        0x50fab590566a43d0, 0x7d7f4bf841472bb4, 0xab86bed32579a4da, 0x8484baf522437396, 0xaa96510559bbb2c5, 0xd899ee8f2950aa10,
        0xf454f3168ba09d9c, 0x0fc760db6592dbf0, 0x5a0913d0dc65e0ca, 0xc24cf3da00bb793d, 0x704c1d522e1b6431, 0x00004d6341978642,
        0xcb05c140c5316d1e, 0x8470a563b158aab6, 0x1d8c2c0a9d6ca8eb, 0x51116b4fa454205a, 0x42a762260de559fc, 0xc253f6ad0b6c839c,
        0xa91c90edd5a90161, 0xe2e950f7f0c68a85, 0x5da337878ea883b8, 0xdd39beb999784e4d, 0x01eb4c53581ed0a8, 0x0000bde28c148252,
        0xda6eefa24e12cb01, 0x20295a7710103eec, 0x06971415333ccf6b, 0x4e51337d79f9c13a, 0x003de055f9d9c4df, 0x6d483e7420979dd4,
        0x6f52ec6cad9df5f0, 0x367026228b570e12, 0xf6ce8bfde4f99ca8, 0xabe8000ffdc2b668, 0x09ec421473b8d15a, 0x000155eb7b253935,
        0x1e3abbcb1c5cdfa4, 0x7416424b5646fef9, 0xc94cef8e99808035, 0x93a1af2286c8cd36, 0x9f0c674c2d909d9a, 0x96744308faf7d99b,
        0x2c299d6faf103e07, 0x36a41262df5c8038, 0xc43ea43a6bdd0588, 0x12f158c569469537, 0x29b398e9e870240f, 0x0000b683fefd2794,
        0x7f90c3f6a85ef915, 0x9abb4ad23f11fdc9, 0x157ac615db0953bc, 0xfc8a91229ef51e20, 0xff664582db0813e3, 0xbd6ddd425cff0ece,
        0x2bc674e501065919, 0x85ec57326f1261c8, 0x2be68cacd27b4448, 0xdb9ae4dd77526a1d, 0xa72ab9d9fadaa241, 0x0000ab5b8907eb5a,
        0x6fb14418c73b9c5c, 0xe929f6d36c2a2e8f, 0xda0a38141a3e39ce, 0xd047590fd58b4735, 0x68c9656608ce3a2d, 0xbfc2605d7f45a671,
        0xd385daacec466d7f, 0x0081670f9a5c9e8e, 0x11b84ab486d69dd2, 0x1baa5296e5e1eef3, 0x74bbe9c17b630970, 0x00019954632db880,
        0xbe2c1790a12b9026, 0x88b5734504ee68e0, 0x404585541c4f5ddc, 0x0aaff8a40c37a237, 0x45a100d1b43182e3, 0xd7cbf5e10ba775f8,
        0xd7f3cf42181e9ef3, 0x2bb55da35a108ccd, 0x8b8890baf8fc71ba, 0x43a3bdbc2325354f, 0xa487b51904798a9b, 0x0000a223ddb90e23,
        0x58caaaf48062807a, 0x5ee8f4b5d001167e, 0x0245bea2e75e3265, 0x55dfc863f1531510, 0x120245356ee3cf50, 0xc4cf14fd6ffddd2e,
        0x1667e86bc1670643, 0x00800e86c8aeccdb, 0xe4e9d1bf93063284, 0x146d8a5ffa160026, 0xd54d9544f9d0b015, 0x0000e7aa557f4e07,
        0x36da9edaa0571895, 0x9b961996ac569379, 0x0203b1db5c3c38ba, 0xbb3e14dc23489b4d, 0xabd34f0e632a7cf1, 0xaf49b138b5d428e7,
        0x775caba3215601a1, 0x0cb938aeaf27beb1, 0x28162d42cb91bc33, 0xf15010bc46251377, 0xdf2ac14a1204226d, 0x000192ca49f12d6a,
        0x7c272d87405d9032, 0xcc3fae77714f6ecb, 0x5232bbf21873eacf, 0xb865d33051f9dbca, 0x0efcef86c3eb0510, 0x7d495df2cd759fd6,
        0xd72da9610e5c8915, 0x66c42cdf2d11ca80, 0x84b6e20cd23c9b26, 0x8b24b58a9535cc93, 0x6d99f9d982cec319, 0x000117061ba2db00,
        0x9bcc385ecf428342, 0x2e648007f38c0be5, 0x1fcd502231e1b11e, 0x0aa2d39eeae0e2bb, 0xb56ff77949a8358f, 0xd379c1fa7f68f4b7,
        0x651a433648211cdf, 0x223c91e02e434d53, 0x101cbc60c0a3d52c, 0x79dffc11600b3069, 0xa8b8c3ebf1d898b4, 0x0000f4552e4aa9b6,
        0x304961225489de47, 0x5c3cb6141544603a, 0x6a97e2b3fc09c45f, 0x993fd370030aa198, 0x790dcee60e6e23c1, 0x3914780201bcec2c,
        0x2f6e3844921c1dd3, 0xd98b2b4f8ce433f0, 0x391703ac9b12bfe9, 0xdb23063d651f9887, 0x3b360ec5062a96ca, 0x000068d41cd7649e,
        0x0e4b956fbb7d6494, 0xa43bfa14a53280ad, 0x05c6a08c4ace188b, 0xea6cf98a5378d7bd, 0xb94ccc63706aa19d, 0x7cd12adb3424d94e,
        0xceb72e49d3ff2b67, 0x638725866058dccb, 0xb3083feb2de5620b, 0xfd2d62f94c923e11, 0xf40975f93db8fb4e, 0x00008a5b204a1524,
        0x659fe01fc534d35d, 0x0e5ef63bb24479cf, 0x4bf96df2db915055, 0x103c90cd3268e6ee, 0x573901e032329d68, 0x3aaa841a25c778e2,
        0xa77fc3bffa20d1f0, 0x968cf4611a88b054, 0x871589be9cf1a2c6, 0xbf67ad8cf6640660, 0xa8c1763b8f798eb3, 0x0001588086126bef,
        0x159564fa8d7d57fc, 0x9943a240e899c605, 0xd10f323622a77c2c, 0xb574de71e8d9ea63, 0x43c36d0b7035b549, 0x6a9fc907cd90b99e,
        0xaa5e390db3de13be, 0xfc8ff0a3bea9895e, 0x2d232897d06ef5cb, 0x9c012193a85fb5a5, 0x10671c53dbd6f607, 0x00003f2a9fc92c1d,
        0xbd358d89efeed822, 0xdd049201b1c2b7a2, 0xbfec2a5a7841c580, 0xcbc51d48cd579661, 0x45866f7bb81eadab, 0xfc82e9c8de41569d,
        0x954243737c3720ba, 0x168dd03d1acb6a90, 0xa5638e796daea13b, 0x5405606215f4d2e9, 0xaf8ef2a3ea15166f, 0x00015bcad494c970,
        0x72fffef284e6b067, 0x7a367689213ee9cb, 0x66b926ec9b910e50, 0x2d2c33764db4adfb, 0x7dd8d0bca59edd2f, 0x87f4dd423e68a580,
        0xde2eba9e07e3e238, 0x092dc7d161bc1c55, 0x9e712e7f3fe44084, 0xfbf3cc6ea75a2b73, 0x2991f0fc735ac17f, 0x00010e44a38e05ae,
        0x3a19ddbf39c750ca, 0x241444c2a9439fe5, 0xc74b26335a8d7367, 0xabc089c66feb6d6a, 0x1a54d395559d6a82, 0xdb0715dd1d861a2e,
        0x8fe88a82a7169268, 0x647cf721bfdb866c, 0x9de0fe97a886da43, 0xff8ce3683ed62a12, 0x7d5a013dc535d998, 0x000095b57c29e6f2,
        0xfc6cd6dcc8107e9c, 0xb1bd6ae755611c81, 0xac47da91243bb82f, 0x6c1ee3db01c8d65f, 0x9acc231b237abe15, 0xbb9af485a0baa4d8,
        0xcbe5ea6b249254c4, 0x83f81d269ff7151b, 0xd6a92ad1cf2c893c, 0x2cd494ef5b531125, 0x1a309c559c4359c4, 0x0001a5d792abd954,
        0x3de652c4d9ccd0cb, 0xa94cd77f5895c62f, 0xcf2820caeae01ed8, 0xa2437294225fa6db, 0x8447b023b9b9fc24, 0x0a52b2441c874b65,
        0xeb8a6511b5579b16, 0x8bc6d69060c4dc17, 0xfc2c6c2a568586df, 0x433c9926213fe0ba, 0x5b26a8b0b809f180, 0x0000d1b9817a2bc2,
        0xbc841f44f2af3a28, 0xc6f43895ee00703d, 0x2ef08befe8a8961b, 0xa826d7e7a1dc75dd, 0x4cc2ca46ea61099f, 0xd5fe98cd4af99352,
        0xca2a37b1ffb1d67c, 0x21efce530f72aecd, 0x6d98ed29f364a6fb, 0xa755a7b7ca0ea614, 0x5b25458f88dea713, 0x000009757bbc92d1,
        0x0de4110f73c5090a, 0xb74953034b8b8153, 0xfda952fd0b1584a2, 0x4180cf889a32481a, 0xbba56c197ea106fd, 0xd903f2864a563e91,
        0x54c56aefa38d609e, 0xd9a7d3b8f7fb4298, 0x9785c76280ece245, 0xcecd39a052c06769, 0x21e2aabb81cba16e, 0x000180639d755d35,
    ]
}

/// Part 7 of the table `mnt6_753_round_constant_table`.
fn mnt6_753_round_constant_table_part7() -> (r: Vec<u64>)
    ensures
        r.len() == 240,
{
    vec![
        0x4d2c797a838d882c, 0x81f91f9ceb905024, 0xe1f9e2f97ed71621, 0xfbcf557adb01eabd, 0xd148e903c47908a3, 0x7f108d8d5598aae9,
        0x54b8dece95acc8b7, 0x4359cab3f1f2187f, 0x5ee95ded27da8b0b, 0xeee745ca3fa9a327, 0xcae3c5e882ab68df, 0x000001eadf3b40da,
        0x2ec82fc4194b59c3, 0x24abdc6c752c7f13, 0x7a6368b63a108e1d, 0xa77cab1e5ba5a0b9, 0x8ad8cc71d6d78435, 0xcf465215557ae054,
        0x7cbc3ec01dbf5515, 0x2288cd4175a09cd1, 0x19be27e18ad9f1df, 0xf317c224f4fe7cdb, 0xd4c3aebd13a41211, 0x00000b30839637b5,
        0x5310b275a68c9536, 0xb0ccc73f4dcebf2a, 0xbc04c90875677a12, 0x49b22297ddc2f8a4, 0x18310614146c4741, 0x78bd34aaf0a9da09,
        0x5adceff12398abfd, 0x6f78d275f0d45eeb, 0x3c6ffb330dca0840, 0x6ae700bd731e0468, 0x4cd497c2c02d93b2, 0x00019b4a1857a0b7,
        0x1d8deece314dbc6e, 0x551c5df367b82c6d, 0xbdf70021ac3f4975, 0x4b16f2d1aeb3d74e, 0xd065a8015853b8f9, 0xb11454934208581d,
        0xfb9bf1f9225bd836, 0x8bc7ece20d34d7d1, 0xe0d607264eb9f821, 0xb013b507aab9332b, 0x6828f02860b5baff, 0x000104ddfe9b3fdd,
        0x64ac7446a38ebadb, 0x6cf9f56574669db4, 0xbc299cfed56be6d4, 0xfa69b9a8de58b91c, 0xa06ef96885c87463, 0xbe4c26881b3b231e,
        0xaa7f777a2d515294, 0x9d2a2bff3dcf44d0, 0xcf2eb52af048aa75, 0x27d75cd3fb0b06bb, 0xa073841d843517d7, 0x00012b88ecd14a09,
        0xcb6a650a2a67015a, 0x155f8aac8aa4a358, 0x3e907cb98dc7dcb4, 0xed35889fb02033f4, 0x3cd869bf1772d637, 0x95b11ce8096317d0,
        0x20ef492ffdc40558, 0x3366f8eef4f0a249, 0x0e70e800aaaa7471, 0x4cb8531b54ec2f89, 0x9feaed066aba0542, 0x0001bb26588e7c3c,
        0x33b4f5b32f705c5b, 0xde3f916e1864e11f, 0x8e1b61702db1c82f, 0xff0c7809e92a483a, 0x3f1df9279ca4e7fe, 0x7487f2828e610794,
        0x342cb5efd5d2659e, 0x5c00fe46862a82ac, 0x653fd1af7ca0fbab, 0x07cab10b64e63716, 0xf13e5392903d5dfa, 0x00012032f443295f,
        0xcb5b817fa72d5965, 0xfd5fd5ff9fc3ce93, 0x3dbdc4fc4fbfe921, 0x9b91e0d7d88d3a66, 0x30c1b2016e936265, 0x89363481a64250fa,
        0xfd7bc4c2d4feb992, 0x9966483c3cf2a30b, 0x37f9efc6c3f91805, 0x99681ef4221176d8, 0x5e80779c3700802b, 0x0000b89bed184943,
        0x56d4cd2dc9a25bd6, 0x65535eadaa05af97, 0x472fcc3981732a92, 0x48fc0d14bd9c0780, 0x8d9771680e8e5754, 0xec239f6f8469403e,
        0x95726a0166a16a69, 0x564771084e3f1f69, 0xfcba1eb7ac6916d6, 0x82cf429c3fe414f2, 0x6a1d8f3b54037535, 0x000064fa564247ab,
        0x0b5577974bcf2337, 0x8e5c060322a32a39, 0x34772ba7fcb3f872, 0xef91823aecc99b62, 0x68b8fa5dab606ee5, 0x437af521fa9fc3fd,
        0x0759268921ed9656, 0x89b6c23fdb42771f, 0xb1ee5c3b60f7cf90, 0x6cbc13d207241908, 0x001be703f1332069, 0x0000ee1529d978b9,
        0x38b0ddbae1e85c1f, 0x9a37556cfc7cec9e, 0xc3b1aeeca28ce631, 0x75440d83eb03133b, 0x59ded5d8de85a90a, 0x9f44a6716e92fa55,
        0x15bf9667783d752f, 0xdd31440a195fcd57, 0x242f9f5aea654b1b, 0xb903649025749980, 0x3b95d2aa62e93dad, 0x000159577f106a37,
        0x2489dbd5b524bc54, 0x796b6146226e64b9, 0xe94cc7c3adacaf66, 0x9f547117443a268f, 0x6022558c8f0afcaf, 0xf25036cab60d523a,
        0xf60bc5dcb9900ace, 0x3757a9ca174836eb, 0xacde259834718980, 0xa09b7af8752d9b27, 0xafc0779f1e182c02, 0x0000e7fa36fdeadc,
        0xd2989c513d057de1, 0x8eb03dc55756fc89, 0x92aebe8422f101ed, 0x48d2fa2c747281bc, 0xff4d4165458cec35, 0xf457018b63092551,
        0x7aede52a7426d6aa, 0xffbea1c76277916e, 0x0e55978dcd72b959, 0xc08536e62ebc7e2c, 0x20a17e5def253fe8, 0x00003b003bd98257,
        0x776d3cfb35e4a6a2, 0xd2e713f8a4610c27, 0xc882938d7fb29661, 0x52e103f99e8bb97a, 0xf85148360d7f20ad, 0x9c6af6ae617c155e,
        0x52b459a2e3683b0d, 0x4c9c3b67a6741eff, 0x606bdb4b59620700, 0x8f6085443b3a8d10, 0xc8e0df4d296d6922, 0x00018ab1430e9025,
        0xb9bafd868c3a69a6, 0x6e9489a32e96f8a7, 0xbac31d2a97d72ac8, 0xea37820ddfb321f5, 0xc219429a9cdaf05f, 0x5d4088009ce23171,
        0x220d10a841dff04c, 0x0f182d8009aa2339, 0x27a0dafbef2597c6, 0xf468e6467c5f9f6a, 0x4c9c0c3260245c7d, 0x00016c756b6c71c9,
        0xaffdfd55748b97db, 0x209e1511fad0142d, 0x1ff4b541a16ec11a, 0x987af1d54518648a, 0xf23022f0c84bac2e, 0x1799c514cb1fdc74,
        0xc26b2e0a1b20e678, 0xc079909b4fb720b3, 0xbe193b0b3376ad1b, 0x6189e9b2a75c2fec, 0x301b92249f2b0e6c, 0x000088dc917c27d5,
        0xc7d058f15b6fa36e, 0x3766fa76d40b1dd4, 0xe5943b820862c88f, 0x26d5b4554a72120f, 0xafdba3c3c10e3f29, 0x846833b7e386cf75,
        0xe7051c826a5605b3, 0x6d76c7a506006d7b, 0x7494c53b4af26708, 0x305ff7e6a18a8940, 0x92e761fcced36622, 0x0000add8f73fce9c,
        0x03a8c6f105d747d4, 0x186936a621802d9c, 0x4a676ca18d6a5d8b, 0xc8d195f8af199afe, 0x638eb67ce34bfd49, 0xbc10db6b539c2fce,
        0x1d73234ecbca326f, 0x3aea47a043237cba, 0x841c8456fc5b0dd6, 0x3eba91f617b93ab8, 0x5191ff539780cbb1, 0x0000421e73273c20,
        0x1dcad5769297eb66, 0xe206d126fe5ef01c, 0xb04f3a3869ad912e, 0x640216cac035fc13, 0xb14dcd5a58e86e42, 0xb0baecdbbc9dcc6b,
        0xbc1af56188768f05, 0xcde13fe04b9324e3, 0xe1acf8932eb17c27, 0x8d1ca29409c1e0c2, 0xa51d22eeddface5b, 0x00010b22b7abfbb7,
        0x1b1ed343e6e1a9be, 0x8d74da3c97ca581c, 0xf00a672606bfed6f, 0x1ac8a0c6766d7f0e, 0x195b639a669c0bb8, 0xdae9fa4631b4d06f,
        0x454e86189825cd8f, 0x783cb17e01ec0b9f, 0x9cfd0449233f782a, 0x27c74d8e8f7fcc42, 0x9a7bf8691214b1cb, 0x000115e2fa485426,
    ]
}

/// Round-constant limbs for the MNT6-753 scalar field bundle.
fn mnt6_753_round_constant_table() -> (r: Vec<u64>)
    ensures
        r.len() == 2340,
{
    let mut r = mnt6_753_round_constant_table_part0();
    let mut p1 = mnt6_753_round_constant_table_part1();
    r.append(&mut p1);
    let mut p2 = mnt6_753_round_constant_table_part2();
    r.append(&mut p2);
    let mut p3 = mnt6_753_round_constant_table_part3();
    r.append(&mut p3);
    let mut p4 = mnt6_753_round_constant_table_part4();
    r.append(&mut p4);
    let mut p5 = mnt6_753_round_constant_table_part5();
    r.append(&mut p5);
    let mut p6 = mnt6_753_round_constant_table_part6();
    r.append(&mut p6);
    let mut p7 = mnt6_753_round_constant_table_part7();
    r.append(&mut p7);
    r
}

/// MDS-matrix limbs for the MNT6-753 scalar field bundle.
fn mnt6_753_mds_table() -> (r: Vec<u64>)
    ensures
        r.len() == 108,
{
    vec![
        0xb20d1cb1b6b20001, 0x4fb11041bd7da7b2, 0x1c6cd9f47bd01e5a, 0x537bd7212b8eaa1d, 0x933f3e1e3c42cb60, 0xf4131f925b466ae4,
        0xe1741d7ae77bf94a, 0xd33160eb2080be0a, 0xb22cba6123acad28, 0xc66145d9e2d9598a, 0x401ba68258b57157, 0x00016a38247569a7,
        0x797853391e4ec001, 0x13031b99d00d8eaf, 0x52f16309564e1f9e, 0x01a10017e2b49bde, 0x1961e0b4d41ae92f, 0x68e940e31f1404ae,
        0x002e496006767903, 0x31536f9f9730c5f6, 0x2443eccfda7e89b5, 0x194ffe184c4d129b, 0xe2c7781d1c67ab66, 0x0001794fd0a4f8b8,
        0x9a329ebe68510001, 0x556248466f98ea88, 0xe79932aa84a82085, 0xebbb8b1140f4488c, 0xe6e854d74090b554, 0x0582341ccf824df4,
        0xa86a1f95f804d43e, 0xe24730fbebf7a70b, 0x2c9da31eef5d94f4, 0xe6d5ef69730d7239, 0x3266c4b03a794294, 0x0001841794c6f133,
        0x797853391e4ec001, 0x13031b99d00d8eaf, 0x52f16309564e1f9e, 0x01a10017e2b49bde, 0x1961e0b4d41ae92f, 0x68e940e31f1404ae,
        0x002e496006767903, 0x31536f9f9730c5f6, 0x2443eccfda7e89b5, 0x194ffe184c4d129b, 0xe2c7781d1c67ab66, 0x0001794fd0a4f8b8,
        0x9a329ebe68510001, 0x556248466f98ea88, 0xe79932aa84a82085, 0xebbb8b1140f4488c, 0xe6e854d74090b554, 0x0582341ccf824df4,
        0xa86a1f95f804d43e, 0xe24730fbebf7a70b, 0x2c9da31eef5d94f4, 0xe6d5ef69730d7239, 0x3266c4b03a794294, 0x0001841794c6f133,
        0x72be57625fd2b001, 0xc729a9c7e7416f6b, 0xd7170e63676ba132, 0x5b4f734c47a40a0f, 0x010d2bf111e90e71, 0xfaf4ea8813d504ea,
        0xe697003e6d2f98a9, 0xa6fe02012b8ccfdb, 0xb2e0ebda3f04dd64, 0x00fa6466501db9ef, 0xee1e3e1e910673f8, 0x00018c2d67e06b8e,
        0x9a329ebe68510001, 0x556248466f98ea88, 0xe79932aa84a82085, 0xebbb8b1140f4488c, 0xe6e854d74090b554, 0x0582341ccf824df4,
        0xa86a1f95f804d43e, 0xe24730fbebf7a70b, 0x2c9da31eef5d94f4, 0xe6d5ef69730d7239, 0x3266c4b03a794294, 0x0001841794c6f133,
        0x72be57625fd2b001, 0xc729a9c7e7416f6b, 0xd7170e63676ba132, 0x5b4f734c47a40a0f, 0x010d2bf111e90e71, 0xfaf4ea8813d504ea,
        0xe697003e6d2f98a9, 0xa6fe02012b8ccfdb, 0xb2e0ebda3f04dd64, 0x00fa6466501db9ef, 0xee1e3e1e910673f8, 0x00018c2d67e06b8e,
        0x31756b86b2bfaaab, 0xc0cda0f5d114ae95, 0xc0c8e735b09d5dc3, 0x88f7bbc21a524bb2, 0x28e6e6969ef61c0c, 0xb59388c5195aabea,
        0x222e79f77930a8cd, 0xc8e30cb3174034ca, 0xa34550376d7713a7, 0xd38ccc4abf037c6d, 0x3c79755d18a42db4, 0x0000649dd13d0f20,
    ]
}


/// The scalar-field modulus of the first curve of the cycle, as limbs.
pub open spec fn mnt4_753_modulus() -> Seq<u64> {
    seq![
        0xd90776e240000001u64,
        0x4ea099170fa13a4fu64,
        0xd6c381bc3f005797u64,
        0xb9dff97634993aa4u64,
        0x3eebca9429212636u64,
        0xb26c5c28c859a99bu64,
        0x99d124d9a15af79du64,
        0x07fdb925e8a0ed8du64,
        0x5eb7e8f96c97d873u64,
        0xb7f997505b8fafedu64,
        0x10229022eee2cdadu64,
        0x0001c4c62d92c411u64,
    ]
}

/// The scalar-field modulus of the second curve of the cycle, as limbs.
pub open spec fn mnt6_753_modulus() -> Seq<u64> {
    seq![
        0x5e9063de245e8001u64,
        0xe39d54522cdd119fu64,
        0x638810719ac425f0u64,
        0x685acce9767254a4u64,
        0xb80f0da5cb537e38u64,
        0xb117e776f218059du64,
        0x99d124d9a15af79du64,
        0x07fdb925e8a0ed8du64,
        0x5eb7e8f96c97d873u64,
        0xb7f997505b8fafedu64,
        0x10229022eee2cdadu64,
        0x0001c4c62d92c411u64,
    ]
}

/// The bundle over the MNT4-753 scalar field.
pub fn mnt4_753_parameters() -> (r: PoseidonParams)
    ensures
        params_wf(&r),
        r.rf == 4,
        r.rp == 57,
        r.modulus@ == mnt4_753_modulus(),
{
    let modulus: Vec<u64> = vec![
        0xd90776e240000001, 0x4ea099170fa13a4f, 0xd6c381bc3f005797, 0xb9dff97634993aa4,
        0x3eebca9429212636, 0xb26c5c28c859a99b, 0x99d124d9a15af79d, 0x07fdb925e8a0ed8d,
        0x5eb7e8f96c97d873, 0xb7f997505b8fafed, 0x10229022eee2cdad, 0x0001c4c62d92c411,
    ];
    proof {
        assert(modulus@ =~= mnt4_753_modulus());
    }
    let rc_flat = mnt4_753_round_constant_table();
    let mds_flat = mnt4_753_mds_table();
    let built = params_from_tables(modulus, 4, 57, &rc_flat, &mds_flat, 3);
    match built {
        Some(p) => p,
        None => vstd::pervasive::unreached(),
    }
}

/// The bundle over the MNT6-753 scalar field.
pub fn mnt6_753_parameters() -> (r: PoseidonParams)
    ensures
        params_wf(&r),
        r.rf == 4,
        r.rp == 57,
        r.modulus@ == mnt6_753_modulus(),
{
    let modulus: Vec<u64> = vec![
        0x5e9063de245e8001, 0xe39d54522cdd119f, 0x638810719ac425f0, 0x685acce9767254a4,
        0xb80f0da5cb537e38, 0xb117e776f218059d, 0x99d124d9a15af79d, 0x07fdb925e8a0ed8d,
        0x5eb7e8f96c97d873, 0xb7f997505b8fafed, 0x10229022eee2cdad, 0x0001c4c62d92c411,
    ];
    proof {
        assert(modulus@ =~= mnt6_753_modulus());
    }
    let rc_flat = mnt6_753_round_constant_table();
    let mds_flat = mnt6_753_mds_table();
    let built = params_from_tables(modulus, 4, 57, &rc_flat, &mds_flat, 3);
    match built {
        Some(p) => p,
        None => vstd::pervasive::unreached(),
    }
}

} // verus!
