use vstd::prelude::*;
use std::collections::VecDeque;
use crate::contadores_do_dia::{
    com_foco_somado, com_pausa_interrompida, com_sessao_concluida, dia_vazio, ContadoresDoDia,
    DiaView,
};
use crate::data::Data;
use crate::tempo::Duracao;

verus! {

/// Quantos dias o anel em memória guarda.
pub const CAPACIDADE_EM_DIAS: usize = 90;

/// Os dias vistos como valores, mais antigo primeiro.
pub open spec fn visao_dos_dias(dias: Seq<ContadoresDoDia>) -> Seq<DiaView> {
    dias.map_values(|d: ContadoresDoDia| d@)
}

/// Os últimos `CAPACIDADE_EM_DIAS` dias de `s` (todos, se couberem).
pub open spec fn ultimos_dias(s: Seq<DiaView>) -> Seq<DiaView> {
    if s.len() > CAPACIDADE_EM_DIAS {
        s.skip(s.len() - CAPACIDADE_EM_DIAS)
    } else {
        s
    }
}

/// Contadores de `hoje`: a entrada mais recente com essa data, ou um dia
/// vazio se não houver nenhuma.
pub open spec fn dia_atual(s: Seq<DiaView>, hoje: Data) -> DiaView
    decreases s.len(),
{
    if s.len() == 0 {
        dia_vazio(hoje)
    } else if s.last().dia == hoje {
        s.last()
    } else {
        dia_atual(s.drop_last(), hoje)
    }
}

/// Os dias com uma entrada de `hoje` no fim: a última, se já é de `hoje`;
/// senão um dia vazio novo, descartando o mais antigo se passar da capacidade.
pub open spec fn com_hoje_no_fim(s: Seq<DiaView>, hoje: Data) -> Seq<DiaView> {
    let com_novo = if s.len() == 0 || s.last().dia != hoje {
        s.push(dia_vazio(hoje))
    } else {
        s
    };
    if com_novo.len() > CAPACIDADE_EM_DIAS {
        com_novo.drop_first()
    } else {
        com_novo
    }
}

/// O dia que um registro em `hoje` vai atualizar.
pub open spec fn dia_alvo(s: Seq<DiaView>, hoje: Data) -> DiaView {
    com_hoje_no_fim(s, hoje).last()
}

/// Os dias depois de um registro em `hoje` que transforma o dia alvo em `novo`.
pub open spec fn registrado(s: Seq<DiaView>, hoje: Data, novo: DiaView) -> Seq<DiaView> {
    let t = com_hoje_no_fim(s, hoje);
    t.update(t.len() - 1, novo)
}

/// Últimos 90 dias de contadores, em anel, mais antigo primeiro.
#[derive(Debug, PartialEq, Eq)]
pub struct HistoricoDiario {
    dias: VecDeque<ContadoresDoDia>,
}

impl View for HistoricoDiario {
    type V = Seq<DiaView>;

    closed spec fn view(&self) -> Seq<DiaView> {
        visao_dos_dias(self.dias@)
    }
}

impl Clone for HistoricoDiario {
    fn clone(&self) -> (r: Self)
        ensures
            r@ == self@,
    {
        proof {
            use_type_invariant(self);
        }
        let r = Self { dias: self.dias.clone() };
        assert(r.dias@ =~= self.dias@);
        r
    }
}

impl HistoricoDiario {
    #[verifier::type_invariant]
    spec fn dentro_da_capacidade(self) -> bool {
        self.dias@.len() <= CAPACIDADE_EM_DIAS
    }

    pub fn vazio() -> (r: Self)
        ensures
            r@ == Seq::<DiaView>::empty(),
    {
        let r = Self { dias: VecDeque::new() };
        assert(r@ =~= Seq::<DiaView>::empty());
        r
    }

    /// Reconstrói a partir de dias persistidos, mais antigo primeiro; além
    /// da capacidade, os mais antigos são descartados.
    pub fn reconstruir(dias: Vec<ContadoresDoDia>) -> (r: Self)
        ensures
            r@ == ultimos_dias(visao_dos_dias(dias@)),
            r@.len() <= CAPACIDADE_EM_DIAS,
    {
        let n = dias.len();
        let inicio: usize = if n > CAPACIDADE_EM_DIAS { n - CAPACIDADE_EM_DIAS } else { 0 };
        let mut fila: VecDeque<ContadoresDoDia> = VecDeque::new();
        let mut i = inicio;
        while i < n
            invariant
                n == dias@.len(),
                inicio <= i <= n,
                fila@ == dias@.subrange(inicio as int, i as int),
            decreases n - i,
        {
            fila.push_back(dias[i]);
            i = i + 1;
            assert(fila@ =~= dias@.subrange(inicio as int, i as int));
        }
        let r = Self { dias: fila };
        assert(r@ =~= ultimos_dias(visao_dos_dias(dias@)));
        r
    }

    /// Dias guardados, mais antigo primeiro.
    pub fn dias(&self) -> (r: Vec<ContadoresDoDia>)
        ensures
            visao_dos_dias(r@) == self@,
            r@.len() <= CAPACIDADE_EM_DIAS,
    {
        proof {
            use_type_invariant(self);
        }
        let mut r: Vec<ContadoresDoDia> = Vec::new();
        let n = self.dias.len();
        let mut i: usize = 0;
        while i < n
            invariant
                n == self.dias@.len(),
                i <= n,
                r@ == self.dias@.subrange(0, i as int),
            decreases n - i,
        {
            r.push(self.dias[i]);
            i = i + 1;
            assert(r@ =~= self.dias@.subrange(0, i as int));
        }
        assert(r@ =~= self.dias@);
        r
    }

    /// Contadores de `hoje`, sem mudar o histórico.
    pub fn dia_atual(&self, hoje: Data) -> (r: ContadoresDoDia)
        ensures
            r@ == dia_atual(self@, hoje),
    {
        let n = self.dias.len();
        let mut i = n;
        assert(self@.take(n as int) =~= self@);
        while i > 0
            invariant
                n == self.dias@.len(),
                i <= n,
                dia_atual(self@, hoje) == dia_atual(self@.take(i as int), hoje),
            decreases i,
        {
            let dia = self.dias[i - 1];
            if dia.dia_de_referencia() == hoje {
                assert(self@.take(i as int).last() == dia@);
                return dia;
            }
            assert(self@.take(i as int).drop_last() =~= self@.take(i - 1));
            i = i - 1;
        }
        ContadoresDoDia::vazio(hoje)
    }

    fn com_hoje_no_fim(self, hoje: Data) -> (r: Self)
        ensures
            r@ == com_hoje_no_fim(self@, hoje),
            r.dias@.len() >= 1,
    {
        proof {
            use_type_invariant(&self);
        }
        let mut dias = self.dias;
        let n = dias.len();
        let precisa_de_dia_novo = n == 0 || dias[n - 1].dia_de_referencia() != hoje;
        let ghost antes = dias@;
        if precisa_de_dia_novo {
            dias.push_back(ContadoresDoDia::vazio(hoje));
        }
        let ghost meio = dias@;
        if dias.len() > CAPACIDADE_EM_DIAS {
            dias.pop_front();
        }
        let r = Self { dias };
        proof {
            let s = visao_dos_dias(antes);
            let m = visao_dos_dias(meio);
            if precisa_de_dia_novo {
                assert(m =~= s.push(dia_vazio(hoje)));
            } else {
                assert(s.last() == antes.last()@);
            }
            assert(r@ =~= com_hoje_no_fim(s, hoje));
        }
        r
    }

    pub fn registrar_sessao_concluida(self, hoje: Data, tempo_decorrido: Duracao) -> (r: Self)
        requires
            dia_alvo(self@, hoje).tempo_de_foco + tempo_decorrido@ <= i64::MAX,
            dia_alvo(self@, hoje).sessoes_concluidas < u32::MAX,
        ensures
            r@ == registrado(
                self@,
                hoje,
                com_sessao_concluida(dia_alvo(self@, hoje), tempo_decorrido@),
            ),
    {
        let h = self.com_hoje_no_fim(hoje);
        proof {
            use_type_invariant(&h);
        }
        let mut dias = h.dias;
        let ghost antes = dias@;
        let ultimo = dias.pop_back().unwrap();
        dias.push_back(ultimo.com_sessao_concluida(tempo_decorrido));
        let h = Self { dias };
        assert(h@ =~= visao_dos_dias(antes).update(antes.len() - 1, com_sessao_concluida(
            dia_alvo(self@, hoje),
            tempo_decorrido@,
        )));
        h
    }

    pub fn registrar_foco_parcial(self, hoje: Data, tempo_decorrido: Duracao) -> (r: Self)
        requires
            dia_alvo(self@, hoje).tempo_de_foco + tempo_decorrido@ <= i64::MAX,
        ensures
            r@ == registrado(
                self@,
                hoje,
                com_foco_somado(dia_alvo(self@, hoje), tempo_decorrido@),
            ),
    {
        let h = self.com_hoje_no_fim(hoje);
        proof {
            use_type_invariant(&h);
        }
        let mut dias = h.dias;
        let ghost antes = dias@;
        let ultimo = dias.pop_back().unwrap();
        dias.push_back(ultimo.com_foco_somado(tempo_decorrido));
        let h = Self { dias };
        assert(h@ =~= visao_dos_dias(antes).update(antes.len() - 1, com_foco_somado(
            dia_alvo(self@, hoje),
            tempo_decorrido@,
        )));
        h
    }

    pub fn registrar_pausa_interrompida(self, hoje: Data) -> (r: Self)
        requires
            dia_alvo(self@, hoje).pausas_interrompidas < u32::MAX,
        ensures
            r@ == registrado(self@, hoje, com_pausa_interrompida(dia_alvo(self@, hoje))),
    {
        let h = self.com_hoje_no_fim(hoje);
        proof {
            use_type_invariant(&h);
        }
        let mut dias = h.dias;
        let ghost antes = dias@;
        let ultimo = dias.pop_back().unwrap();
        dias.push_back(ultimo.com_pausa_interrompida());
        let h = Self { dias };
        assert(h@ =~= visao_dos_dias(antes).update(
            antes.len() - 1,
            com_pausa_interrompida(dia_alvo(self@, hoje)),
        ));
        h
    }
}

/// O anel nunca passa da capacidade: reconstruir e registrar deixam no
/// máximo `CAPACIDADE_EM_DIAS` dias.
pub proof fn anel_nunca_passa_da_capacidade(s: Seq<DiaView>, hoje: Data, novo: DiaView)
    requires
        s.len() <= CAPACIDADE_EM_DIAS,
    ensures
        ultimos_dias(s).len() <= CAPACIDADE_EM_DIAS,
        registrado(s, hoje, novo).len() <= CAPACIDADE_EM_DIAS,
        registrado(s, hoje, novo).len() >= 1,
{
}

/// O que se registra em `hoje` aparece em `dia_atual(hoje)` logo depois.
pub proof fn registro_aparece_no_dia_atual(s: Seq<DiaView>, hoje: Data, novo: DiaView)
    requires
        s.len() <= CAPACIDADE_EM_DIAS,
        novo.dia == hoje,
    ensures
        dia_atual(registrado(s, hoje, novo), hoje) == novo,
        dia_alvo(s, hoje).dia == hoje,
{
}

/// Se o dia mais recente já é `hoje`, o dia alvo de um registro é o dia atual;
/// num histórico sem `hoje`, o dia alvo é um dia vazio.
pub proof fn dia_alvo_e_o_dia_atual(s: Seq<DiaView>, hoje: Data)
    requires
        s.len() <= CAPACIDADE_EM_DIAS,
        s.len() == 0 || s.last().dia == hoje || (forall|i: int|
            0 <= i < s.len() ==> (#[trigger] s[i]).dia != hoje),
    ensures
        dia_alvo(s, hoje) == dia_atual(s, hoje),
    decreases s.len(),
{
    if s.len() > 0 && s.last().dia != hoje {
        dia_atual_sem_registro(s, hoje);
    }
}

/// Sem nenhuma entrada de `hoje`, o dia atual é um dia vazio.
pub proof fn dia_atual_sem_registro(s: Seq<DiaView>, hoje: Data)
    requires
        forall|i: int| 0 <= i < s.len() ==> (#[trigger] s[i]).dia != hoje,
    ensures
        dia_atual(s, hoje) == dia_vazio(hoje),
    decreases s.len(),
{
    if s.len() > 0 {
        assert(s.last() == s[s.len() - 1]);
        let t = s.drop_last();
        assert forall|i: int| 0 <= i < t.len() implies (#[trigger] t[i]).dia != hoje by {
            assert(t[i] == s[i]);
        }
        dia_atual_sem_registro(t, hoje);
    }
}

/// A virada de dia preserva os dias anteriores: registrar num dia novo só
/// acrescenta uma entrada no fim (descartando a mais antiga se o anel estava
/// cheio), e os contadores de qualquer outra data ficam como estavam.
pub proof fn virada_de_dia_preserva_os_dias_anteriores(
    s: Seq<DiaView>,
    hoje: Data,
    novo: DiaView,
)
    requires
        s.len() <= CAPACIDADE_EM_DIAS,
        s.len() > 0,
        s.last().dia != hoje,
    ensures
        s.len() < CAPACIDADE_EM_DIAS ==> registrado(s, hoje, novo) == s.push(novo),
        s.len() == CAPACIDADE_EM_DIAS ==> registrado(s, hoje, novo) == s.drop_first().push(
            novo,
        ),
{
    let t = com_hoje_no_fim(s, hoje);
    if s.len() < CAPACIDADE_EM_DIAS {
        assert(registrado(s, hoje, novo) =~= s.push(novo));
    } else {
        assert(registrado(s, hoje, novo) =~= s.drop_first().push(novo));
    }
}

/// Registrar em `hoje` com uma atualização `f` qualquer: se o dia mais
/// recente já é `hoje`, só ele muda, para `f` dele; senão entra no fim um dia
/// novo `f(dia vazio)`, descartando o mais antigo se passar da capacidade.
/// Nos dois casos o anel continua dentro da capacidade.
pub proof fn registro_muda_so_o_dia_de_hoje(s: Seq<DiaView>, hoje: Data, f: spec_fn(DiaView) -> DiaView)
    requires
        s.len() <= CAPACIDADE_EM_DIAS,
    ensures
        s.len() > 0 && s.last().dia == hoje ==> registrado(s, hoje, f(dia_alvo(s, hoje)))
            == s.drop_last().push(f(s.last())),
        !(s.len() > 0 && s.last().dia == hoje) ==> registrado(s, hoje, f(dia_alvo(s, hoje))) == ({
            let m = s.push(f(dia_vazio(hoje)));
            if m.len() > CAPACIDADE_EM_DIAS { m.drop_first() } else { m }
        }),
        registrado(s, hoje, f(dia_alvo(s, hoje))).len() <= CAPACIDADE_EM_DIAS,
{
    let r = registrado(s, hoje, f(dia_alvo(s, hoje)));
    if s.len() > 0 && s.last().dia == hoje {
        assert(r =~= s.drop_last().push(f(s.last())));
    } else {
        let m = s.push(f(dia_vazio(hoje)));
        if m.len() > CAPACIDADE_EM_DIAS {
            assert(r =~= m.drop_first());
        } else {
            assert(r =~= m);
        }
    }
}

/// Registrar em `hoje` aplica a atualização ao dia atual de `hoje`, desde que
/// só o dia mais recente possa ser de `hoje` e que a atualização não mude a
/// data: o dia atual depois é `f` do dia atual antes.
pub proof fn registro_atualiza_o_dia_atual(s: Seq<DiaView>, hoje: Data, f: spec_fn(DiaView) -> DiaView)
    requires
        s.len() <= CAPACIDADE_EM_DIAS,
        forall|i: int| 0 <= i < s.len() - 1 ==> (#[trigger] s[i]).dia != hoje,
        forall|d: DiaView| (#[trigger] f(d)).dia == d.dia,
    ensures
        dia_atual(registrado(s, hoje, f(dia_alvo(s, hoje))), hoje) == f(dia_atual(s, hoje)),
{
    if s.len() > 0 && s.last().dia != hoje {
        assert(s.last() == s[s.len() - 1]);
        assert forall|i: int| 0 <= i < s.len() implies (#[trigger] s[i]).dia != hoje by {}
    }
    dia_alvo_e_o_dia_atual(s, hoje);
    assert(f(dia_alvo(s, hoje)).dia == dia_alvo(s, hoje).dia);
    registro_aparece_no_dia_atual(s, hoje, f(dia_alvo(s, hoje)));
}

} // verus!
