use vstd::prelude::*;
use crate::contadores_do_dia::ContadoresDoDia;
use crate::data::Data;
use crate::tempo::Duracao;
use crate::texto::{anexar_decimal_com_zeros, decimal, decimal_com_zeros, digito};
use crate::url_analisada::{primeira_ocorrencia, primeira_ocorrencia_apos, primeira_ocorrencia_limites};

verus! {

/// `c` é um algarismo decimal.
pub open spec fn e_digito(c: char) -> bool {
    '0' <= c <= '9'
}

/// Todos os caracteres de `s` são algarismos.
pub open spec fn so_digitos(s: Seq<char>) -> bool {
    forall|i: int| 0 <= i < s.len() ==> e_digito(#[trigger] s[i])
}

/// O número que os algarismos de `s` escrevem em base 10.
pub open spec fn valor_dos_digitos(s: Seq<char>) -> nat
    decreases s.len(),
{
    if s.len() == 0 {
        0
    } else {
        valor_dos_digitos(s.drop_last()) * 10 + ((s.last() as int) - ('0' as int)) as nat
    }
}

/// Como `str::parse` para um inteiro sem sinal de máximo `max`: um `+`
/// opcional seguido de ao menos um algarismo, e só algarismos, sem passar
/// de `max`.
pub open spec fn numero_sem_sinal(s: Seq<char>, max: nat) -> Option<nat> {
    let digitos = if s.len() > 0 && s[0] == '+' { s.drop_first() } else { s };
    if digitos.len() == 0 || !so_digitos(digitos) || valor_dos_digitos(digitos) > max {
        None
    } else {
        Some(valor_dos_digitos(digitos))
    }
}

/// Os até três pedaços de `s` partido nos dois primeiros `-`, como
/// `splitn(3, '-')`: o último pedaço guarda o resto inteiro.
pub open spec fn partes_da_data(s: Seq<char>) -> (Seq<char>, Option<Seq<char>>, Option<Seq<char>>) {
    match primeira_ocorrencia(s, '-') {
        None => (s, None, None),
        Some(i) => {
            let resto = s.skip(i + 1);
            match primeira_ocorrencia(resto, '-') {
                None => (s.take(i), Some(resto), None),
                Some(j) => (s.take(i), Some(resto.take(j)), Some(resto.skip(j + 1))),
            }
        },
    }
}

/// Um pedaço opcional lido como número, ou `padrao` se faltar ou for inválido.
pub open spec fn numero_ou(parte: Option<Seq<char>>, max: nat, padrao: nat) -> nat {
    match parte {
        Some(p) => match numero_sem_sinal(p, max) {
            Some(v) => v,
            None => padrao,
        },
        None => padrao,
    }
}

/// A data que `texto` escreve como `AAAA-MM-DD`; pedaço ausente ou inválido
/// vira o da época (1970, 1, 1).
pub open spec fn data_lida(texto: Seq<char>) -> (u16, u8, u8) {
    let p = partes_da_data(texto);
    (
        numero_ou(Some(p.0), 65535, 1970) as u16,
        numero_ou(p.1, 255, 1) as u8,
        numero_ou(p.2, 255, 1) as u8,
    )
}

/// `AAAA-MM-DD` com zeros à esquerda, como `{:04}-{:02}-{:02}`.
pub open spec fn data_escrita(d: (u16, u8, u8)) -> Seq<char> {
    decimal_com_zeros(d.0 as nat, 4) + seq!['-'] + decimal_com_zeros(d.1 as nat, 2) + seq!['-']
        + decimal_com_zeros(d.2 as nat, 2)
}

/// Escreve a data como `AAAA-MM-DD`.
pub fn formatar_data(data: Data) -> (r: String)
    ensures
        r@ == data_escrita(data@),
{
    let mut s = String::new();
    anexar_decimal_com_zeros(&mut s, data.ano() as u64, 4);
    proof {
        reveal_strlit("-");
    }
    s.append("-");
    anexar_decimal_com_zeros(&mut s, data.mes() as u64, 2);
    s.append("-");
    anexar_decimal_com_zeros(&mut s, data.dia() as u64, 2);
    s
}

fn posicao_de(s: &str, c: char) -> (r: Option<usize>)
    ensures
        match primeira_ocorrencia(s@, c) {
            Some(i) => r == Some(i as usize),
            None => r is None,
        },
{
    let n = s.unicode_len();
    let mut i: usize = 0;
    while i < n
        invariant
            n == s@.len(),
            i <= n,
            forall|k: int| 0 <= k < i ==> s@[k] != c,
        decreases n - i,
    {
        if s.get_char(i) == c {
            proof {
                primeira_ocorrencia_apos(s@, c, i as int);
                assert(s@.skip(i as int)[0] == c);
            }
            return Some(i);
        }
        i = i + 1;
    }
    proof {
        primeira_ocorrencia_limites(s@, c);
        if let Some(j) = primeira_ocorrencia(s@, c) {
            assert(s@[j] == c);
        }
    }
    None
}

proof fn valor_cresce(s: Seq<char>, c: char)
    requires
        e_digito(c),
    ensures
        valor_dos_digitos(s.push(c)) == valor_dos_digitos(s) * 10 + ((c as int) - ('0' as int)),
        valor_dos_digitos(s.push(c)) >= valor_dos_digitos(s),
{
    assert(s.push(c).drop_last() =~= s);
}

fn numero_sem_sinal_exec(s: &str, max: u64) -> (r: Option<u64>)
    requires
        max < 1_000_000,
    ensures
        match numero_sem_sinal(s@, max as nat) {
            Some(v) => r == Some(v as u64),
            None => r is None,
        },
{
    let n = s.unicode_len();
    let inicio: usize = if n > 0 && s.get_char(0) == '+' { 1 } else { 0 };
    let ghost digitos = if s@.len() > 0 && s@[0] == '+' { s@.drop_first() } else { s@ };
    if inicio >= n {
        return None;
    }
    let mut valor: u64 = 0;
    let mut estourou = false;
    let mut i = inicio;
    assert(digitos =~= s@.skip(inicio as int));
    while i < n
        invariant
            n == s@.len(),
            inicio <= i <= n,
            max < 1_000_000,
            digitos == s@.skip(inicio as int),
            digitos == (if s@.len() > 0 && s@[0] == '+' { s@.drop_first() } else { s@ }),
            so_digitos(s@.subrange(inicio as int, i as int)),
            estourou == (valor_dos_digitos(s@.subrange(inicio as int, i as int)) > max),
            !estourou ==> valor == valor_dos_digitos(s@.subrange(inicio as int, i as int)),
            valor <= max,
        decreases n - i,
    {
        let c = s.get_char(i);
        let ghost prefixo = s@.subrange(inicio as int, i as int);
        assert(s@.subrange(inicio as int, i + 1) =~= prefixo.push(c));
        if !('0' <= c && c <= '9') {
            assert(!so_digitos(digitos)) by {
                assert(digitos[i - inicio] == c);
                assert(!e_digito(digitos[i - inicio]));
            }
            assert(digitos == (if s@.len() > 0 && s@[0] == '+' { s@.drop_first() } else { s@ }));
            assert(numero_sem_sinal(s@, max as nat) is None);
            return None;
        }
        proof {
            valor_cresce(prefixo, c);
        }
        let d = (c as u32 - '0' as u32) as u64;
        if !estourou {
            let proximo = valor * 10 + d;
            if proximo > max {
                estourou = true;
            } else {
                valor = proximo;
            }
        }
        i = i + 1;
        assert forall|k: int| 0 <= k < s@.subrange(inicio as int, i as int).len() implies e_digito(
            #[trigger] s@.subrange(inicio as int, i as int)[k],
        ) by {
            if k < prefixo.len() {
                assert(s@.subrange(inicio as int, i as int)[k] == prefixo[k]);
            }
        }
    }
    assert(s@.subrange(inicio as int, n as int) =~= digitos);
    if estourou {
        None
    } else {
        Some(valor)
    }
}

fn numero_ou_exec(parte: Option<&str>, max: u64, padrao: u64) -> (r: u64)
    requires
        max < 1_000_000,
        padrao <= max,
    ensures
        r == numero_ou(
            match parte {
                Some(p) => Some(p@),
                None => None,
            },
            max as nat,
            padrao as nat,
        ),
        r <= max,
{
    match parte {
        Some(p) => match numero_sem_sinal_exec(p, max) {
            Some(v) => v,
            None => padrao,
        },
        None => padrao,
    }
}

/// Lê `AAAA-MM-DD`; formato inválido degrada para a época, nunca falha.
pub fn parse_data(texto: &str) -> (r: Data)
    ensures
        r@ == data_lida(texto@),
{
    let n = texto.unicode_len();
    proof {
        primeira_ocorrencia_limites(texto@, '-');
    }
    let (p0, p1, p2): (&str, Option<&str>, Option<&str>) = match posicao_de(texto, '-') {
        None => (texto, None, None),
        Some(i) => {
            let resto = texto.substring_char(i + 1, n);
            assert(resto@ =~= texto@.skip(i + 1));
            let cabeca = texto.substring_char(0, i);
            assert(cabeca@ =~= texto@.take(i as int));
            let m = resto.unicode_len();
            proof {
                primeira_ocorrencia_limites(resto@, '-');
            }
            match posicao_de(resto, '-') {
                None => (cabeca, Some(resto), None),
                Some(j) => {
                    let meio = resto.substring_char(0, j);
                    let fim = resto.substring_char(j + 1, m);
                    assert(meio@ =~= resto@.take(j as int));
                    assert(fim@ =~= resto@.skip(j + 1));
                    (cabeca, Some(meio), Some(fim))
                },
            }
        },
    };
    let ano = numero_ou_exec(Some(p0), 65535, 1970);
    let mes = numero_ou_exec(p1, 255, 1);
    let dia = numero_ou_exec(p2, 255, 1);
    Data::de(ano as u16, mes as u8, dia as u8)
}

proof fn digito_e_digito(d: int)
    requires
        0 <= d < 10,
    ensures
        e_digito(digito(d)),
        (digito(d) as int) - ('0' as int) == d,
        digito(d) != '-',
{
}

proof fn decimal_so_digitos(n: nat)
    ensures
        so_digitos(decimal(n)),
        valor_dos_digitos(decimal(n)) == n,
        decimal(n).len() >= 1,
    decreases n,
{
    if n < 10 {
        digito_e_digito(n as int);
        let d = decimal(n);
        assert(d.drop_last() =~= Seq::<char>::empty());
        assert(d.last() == digito(n as int));
        assert(valor_dos_digitos(d.drop_last()) == 0);
        assert(valor_dos_digitos(d) == 0 * 10 + ((digito(n as int) as int) - ('0' as int)) as nat);
    } else {
        decimal_so_digitos(n / 10);
        digito_e_digito((n % 10) as int);
        vstd::arithmetic::div_mod::lemma_fundamental_div_mod(n as int, 10);
        let d = decimal(n);
        assert(d.drop_last() =~= decimal(n / 10));
        assert(d.last() == digito((n % 10) as int));
        assert(valor_dos_digitos(d) == (n / 10) * 10 + (n % 10));
        assert forall|i: int| 0 <= i < d.len() implies e_digito(#[trigger] d[i]) by {
            if i < d.len() - 1 {
                assert(d[i] == decimal(n / 10)[i]);
            }
        }
    }
}

proof fn zeros_nao_mudam_o_valor(k: nat, d: Seq<char>)
    ensures
        valor_dos_digitos(Seq::new(k, |i: int| '0') + d) == valor_dos_digitos(d),
    decreases d.len(), k,
{
    let z = Seq::new(k, |i: int| '0');
    if d.len() == 0 {
        assert(z + d =~= z);
        if k > 0 {
            assert(z.drop_last() =~= Seq::new((k - 1) as nat, |i: int| '0'));
            zeros_nao_mudam_o_valor((k - 1) as nat, Seq::<char>::empty());
            assert(Seq::new((k - 1) as nat, |i: int| '0') + Seq::<char>::empty() =~= Seq::new(
                (k - 1) as nat,
                |i: int| '0',
            ));
        }
    } else {
        assert((z + d).drop_last() =~= z + d.drop_last());
        zeros_nao_mudam_o_valor(k, d.drop_last());
    }
}

proof fn decimal_com_zeros_le_o_numero(n: nat, largura: nat)
    ensures
        so_digitos(decimal_com_zeros(n, largura)),
        valor_dos_digitos(decimal_com_zeros(n, largura)) == n,
        decimal_com_zeros(n, largura).len() >= 1,
        numero_sem_sinal(decimal_com_zeros(n, largura), n) == Some(n),
{
    decimal_so_digitos(n);
    let d = decimal(n);
    if d.len() < largura {
        let k = (largura - d.len()) as nat;
        zeros_nao_mudam_o_valor(k, d);
        let t = Seq::new(k, |i: int| '0') + d;
        assert forall|i: int| 0 <= i < t.len() implies e_digito(#[trigger] t[i]) by {
            if i >= k {
                assert(t[i] == d[i - k]);
            }
        }
    }
    let t = decimal_com_zeros(n, largura);
    assert(t[0] != '+') by {
        assert(e_digito(t[0]));
    }
}

proof fn sem_hifen(s: Seq<char>)
    requires
        so_digitos(s),
    ensures
        forall|k: int| 0 <= k < s.len() ==> s[k] != '-',
{
    assert forall|k: int| 0 <= k < s.len() implies s[k] != '-' by {
        assert(e_digito(s[k]));
    }
}

proof fn partes_de_tres_pedacos(a: Seq<char>, m: Seq<char>, x: Seq<char>)
    requires
        forall|k: int| 0 <= k < a.len() ==> a[k] != '-',
        forall|k: int| 0 <= k < m.len() ==> m[k] != '-',
    ensures
        partes_da_data(a + seq!['-'] + m + seq!['-'] + x) == (a, Some(m), Some(x)),
{
    let s = a + seq!['-'] + m + seq!['-'] + x;
    let resto = m + seq!['-'] + x;
    assert(s =~= a + seq!['-'] + resto);
    assert forall|k: int| 0 <= k < a.len() implies s[k] != '-' by {
        assert(s[k] == a[k]);
    }
    primeira_ocorrencia_apos(s, '-', a.len() as int);
    assert(s.skip(a.len() as int)[0] == '-');
    assert(primeira_ocorrencia(s, '-') == Some(a.len() as int));
    assert(s.take(a.len() as int) =~= a);
    assert(s.skip(a.len() as int + 1) =~= resto);
    assert forall|k: int| 0 <= k < m.len() implies resto[k] != '-' by {
        assert(resto[k] == m[k]);
    }
    primeira_ocorrencia_apos(resto, '-', m.len() as int);
    assert(resto.skip(m.len() as int)[0] == '-');
    assert(primeira_ocorrencia(resto, '-') == Some(m.len() as int));
    assert(resto.take(m.len() as int) =~= m);
    assert(resto.skip(m.len() as int + 1) =~= x);
}

/// Ler o que `formatar_data` escreveu devolve a mesma data, para qualquer data.
pub proof fn ler_o_que_se_escreveu_devolve_a_data(d: (u16, u8, u8))
    ensures
        data_lida(data_escrita(d)) == d,
{
    let a = decimal_com_zeros(d.0 as nat, 4);
    let m = decimal_com_zeros(d.1 as nat, 2);
    let x = decimal_com_zeros(d.2 as nat, 2);
    decimal_com_zeros_le_o_numero(d.0 as nat, 4);
    decimal_com_zeros_le_o_numero(d.1 as nat, 2);
    decimal_com_zeros_le_o_numero(d.2 as nat, 2);
    sem_hifen(a);
    sem_hifen(m);
    partes_de_tres_pedacos(a, m, x);
    assert(numero_sem_sinal(a, 65535) == Some(d.0 as nat));
    assert(numero_sem_sinal(m, 255) == Some(d.1 as nat));
    assert(numero_sem_sinal(x, 255) == Some(d.2 as nat));
}

/// Os contadores de um dia lidos de uma linha gravada: a data em texto (formato
/// inválido degrada para a época, como em `parse_data`) e o tempo de foco
/// negativo degrada para zero; os contadores vêm como estão.
pub fn dia_da_linha(
    data: &str,
    sessoes_concluidas: u32,
    tempo_de_foco_ms: i64,
    pausas_interrompidas: u32,
) -> (r: ContadoresDoDia)
    ensures
        r@.dia@ == data_lida(data@),
        r@.sessoes_concluidas == sessoes_concluidas,
        r@.tempo_de_foco == (if tempo_de_foco_ms >= 0 { tempo_de_foco_ms as int } else { 0 }),
        r@.pausas_interrompidas == pausas_interrompidas,
{
    let tempo_de_foco = match Duracao::de_ms(tempo_de_foco_ms) {
        Ok(d) => d,
        Err(_) => Duracao::zero(),
    };
    ContadoresDoDia::reconstruir(parse_data(data), sessoes_concluidas, tempo_de_foco, pausas_interrompidas)
}

} // verus!
