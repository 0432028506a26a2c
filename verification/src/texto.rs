use vstd::prelude::*;

verus! {

/// O caractere do algarismo decimal `d` (0 a 9).
pub open spec fn digito(d: int) -> char {
    if d == 0 { '0' }
    else if d == 1 { '1' }
    else if d == 2 { '2' }
    else if d == 3 { '3' }
    else if d == 4 { '4' }
    else if d == 5 { '5' }
    else if d == 6 { '6' }
    else if d == 7 { '7' }
    else if d == 8 { '8' }
    else { '9' }
}

/// Representação decimal de `n`, sem zeros à esquerda.
pub open spec fn decimal(n: nat) -> Seq<char>
    decreases n,
{
    if n < 10 {
        seq![digito(n as int)]
    } else {
        decimal(n / 10).push(digito((n % 10) as int))
    }
}

/// Representação decimal de um inteiro com sinal, com `-` à frente dos negativos.
pub open spec fn decimal_com_sinal(n: int) -> Seq<char> {
    if n < 0 {
        seq!['-'] + decimal((-n) as nat)
    } else {
        decimal(n as nat)
    }
}

/// `n` em decimal, completado com zeros à esquerda até `largura` algarismos.
pub open spec fn decimal_com_zeros(n: nat, largura: nat) -> Seq<char> {
    let d = decimal(n);
    if d.len() >= largura {
        d
    } else {
        Seq::new((largura - d.len()) as nat, |i: int| '0') + d
    }
}

fn literal_do_digito(d: u64) -> (r: &'static str)
    requires
        d < 10,
    ensures
        r@ == seq![digito(d as int)],
{
    if d == 0 {
        proof { reveal_strlit("0"); }
        "0"
    } else if d == 1 {
        proof { reveal_strlit("1"); }
        "1"
    } else if d == 2 {
        proof { reveal_strlit("2"); }
        "2"
    } else if d == 3 {
        proof { reveal_strlit("3"); }
        "3"
    } else if d == 4 {
        proof { reveal_strlit("4"); }
        "4"
    } else if d == 5 {
        proof { reveal_strlit("5"); }
        "5"
    } else if d == 6 {
        proof { reveal_strlit("6"); }
        "6"
    } else if d == 7 {
        proof { reveal_strlit("7"); }
        "7"
    } else if d == 8 {
        proof { reveal_strlit("8"); }
        "8"
    } else {
        proof { reveal_strlit("9"); }
        "9"
    }
}

/// Acrescenta a `s` a representação decimal de `n`.
pub fn anexar_decimal(s: &mut String, n: u64)
    ensures
        final(s)@ == old(s)@ + decimal(n as nat),
    decreases n,
{
    if n >= 10 {
        anexar_decimal(s, n / 10);
    }
    s.append(literal_do_digito(n % 10));
    proof {
        assert(old(s)@ + decimal(n as nat) =~= if n >= 10 {
            old(s)@ + decimal((n / 10) as nat) + seq![digito((n % 10) as int)]
        } else {
            old(s)@ + seq![digito((n % 10) as int)]
        });
    }
}

/// Acrescenta a `s` a representação decimal de `n`, com sinal.
pub fn anexar_decimal_com_sinal(s: &mut String, n: i64)
    ensures
        final(s)@ == old(s)@ + decimal_com_sinal(n as int),
{
    if n < 0 {
        proof { reveal_strlit("-"); }
        s.append("-");
        let absoluto: u64 = (0i128 - n as i128) as u64;
        anexar_decimal(s, absoluto);
        assert(s@ =~= old(s)@ + decimal_com_sinal(n as int));
    } else {
        anexar_decimal(s, n as u64);
    }
}

/// Acrescenta a `s` o número `n` com zeros à esquerda até `largura` algarismos.
pub fn anexar_decimal_com_zeros(s: &mut String, n: u64, largura: u64)
    ensures
        final(s)@ == old(s)@ + decimal_com_zeros(n as nat, largura as nat),
{
    let mut numero = String::new();
    anexar_decimal(&mut numero, n);
    let tamanho = numero.as_str().unicode_len();
    let mut faltam: u64 = if (tamanho as u64) < largura { largura - tamanho as u64 } else { 0 };
    let ghost zeros_total: nat = faltam as nat;
    proof { reveal_strlit("0"); }
    while faltam > 0
        invariant
            faltam <= zeros_total,
            s@ == old(s)@ + Seq::new((zeros_total - faltam) as nat, |i: int| '0'),
        decreases faltam,
    {
        proof { reveal_strlit("0"); }
        s.append("0");
        faltam = faltam - 1;
        assert(s@ =~= old(s)@ + Seq::new((zeros_total - faltam) as nat, |i: int| '0'));
    }
    s.append(numero.as_str());
    assert(s@ =~= old(s)@ + decimal_com_zeros(n as nat, largura as nat));
}

/// Compara dois textos caractere a caractere.
pub fn textos_iguais(a: &str, b: &str) -> (r: bool)
    ensures
        r == (a@ == b@),
{
    let na = a.unicode_len();
    let nb = b.unicode_len();
    if na != nb {
        return false;
    }
    let mut i: usize = 0;
    while i < na
        invariant
            na == a@.len(),
            nb == b@.len(),
            na == nb,
            i <= na,
            forall|k: int| 0 <= k < i ==> a@[k] == b@[k],
        decreases na - i,
    {
        if a.get_char(i) != b.get_char(i) {
            return false;
        }
        i = i + 1;
    }
    assert(a@ =~= b@);
    true
}

/// `s` sem o prefixo `prefixo`, se `s` começa com ele.
pub fn sem_prefixo<'a>(s: &'a str, prefixo: &str) -> (r: Option<&'a str>)
    ensures
        r is Some <==> prefixo@.is_prefix_of(s@),
        r matches Some(resto) ==> resto@ == s@.skip(prefixo@.len() as int),
{
    let ns = s.unicode_len();
    let np = prefixo.unicode_len();
    if np > ns {
        return None;
    }
    let cabeca = s.substring_char(0, np);
    if textos_iguais(cabeca, prefixo) {
        assert(s@.subrange(0, np as int) =~= s@.take(np as int));
        Some(s.substring_char(np, ns))
    } else {
        assert(s@.take(np as int) =~= s@.subrange(0, np as int));
        None
    }
}

/// Cópia própria de um texto.
pub fn copiar(s: &str) -> (r: String)
    ensures
        r@ == s@,
{
    String::from_str(s)
}

} // verus!
